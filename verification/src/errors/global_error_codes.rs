use vstd::prelude::*;
use vstd::string::StringExecFns;

verus! {

/// The error codes that a client gets to see.
#[derive(Debug, Clone, Copy, PartialEq, Eq, Structural)]
pub enum GlobalErrorCode {
    UnknownError,
    MissingAppData,
    JSONPayloadError,
    FormPayloadError,
    URLPathError,
    QueryStringError,
    StructValidationError,
    InvalidJWTToken,
    GameEngineError,
    GameEngineCrash,
    WebsocketError,
    NotRegistered,
    FailedToRegister,
    FailedToUnregister,
    AlreadyConnected,
    CannotSendAction,
}

impl GlobalErrorCode {
    /// The number under which the code goes over the wire: its place in the
    /// table, counted from zero.
    pub open spec fn number(self) -> u32 {
        match self {
            GlobalErrorCode::UnknownError => 0,
            GlobalErrorCode::MissingAppData => 1,
            GlobalErrorCode::JSONPayloadError => 2,
            GlobalErrorCode::FormPayloadError => 3,
            GlobalErrorCode::URLPathError => 4,
            GlobalErrorCode::QueryStringError => 5,
            GlobalErrorCode::StructValidationError => 6,
            GlobalErrorCode::InvalidJWTToken => 7,
            GlobalErrorCode::GameEngineError => 8,
            GlobalErrorCode::GameEngineCrash => 9,
            GlobalErrorCode::WebsocketError => 10,
            GlobalErrorCode::NotRegistered => 11,
            GlobalErrorCode::FailedToRegister => 12,
            GlobalErrorCode::FailedToUnregister => 13,
            GlobalErrorCode::AlreadyConnected => 14,
            GlobalErrorCode::CannotSendAction => 15,
        }
    }

    /// The code's name.
    pub open spec fn name(self) -> Seq<char> {
        match self {
            GlobalErrorCode::UnknownError => "UnknownError"@,
            GlobalErrorCode::MissingAppData => "MissingAppData"@,
            GlobalErrorCode::JSONPayloadError => "JSONPayloadError"@,
            GlobalErrorCode::FormPayloadError => "FormPayloadError"@,
            GlobalErrorCode::URLPathError => "URLPathError"@,
            GlobalErrorCode::QueryStringError => "QueryStringError"@,
            GlobalErrorCode::StructValidationError => "StructValidationError"@,
            GlobalErrorCode::InvalidJWTToken => "InvalidJWTToken"@,
            GlobalErrorCode::GameEngineError => "GameEngineError"@,
            GlobalErrorCode::GameEngineCrash => "GameEngineCrash"@,
            GlobalErrorCode::WebsocketError => "WebsocketError"@,
            GlobalErrorCode::NotRegistered => "NotRegistered"@,
            GlobalErrorCode::FailedToRegister => "FailedToRegister"@,
            GlobalErrorCode::FailedToUnregister => "FailedToUnregister"@,
            GlobalErrorCode::AlreadyConnected => "AlreadyConnected"@,
            GlobalErrorCode::CannotSendAction => "CannotSendAction"@,
        }
    }

    /// The number under which the code goes over the wire.
    pub fn get_number(&self) -> (number: u32)
        ensures
            number == self.number(),
    {
        match self {
            GlobalErrorCode::UnknownError => 0,
            GlobalErrorCode::MissingAppData => 1,
            GlobalErrorCode::JSONPayloadError => 2,
            GlobalErrorCode::FormPayloadError => 3,
            GlobalErrorCode::URLPathError => 4,
            GlobalErrorCode::QueryStringError => 5,
            GlobalErrorCode::StructValidationError => 6,
            GlobalErrorCode::InvalidJWTToken => 7,
            GlobalErrorCode::GameEngineError => 8,
            GlobalErrorCode::GameEngineCrash => 9,
            GlobalErrorCode::WebsocketError => 10,
            GlobalErrorCode::NotRegistered => 11,
            GlobalErrorCode::FailedToRegister => 12,
            GlobalErrorCode::FailedToUnregister => 13,
            GlobalErrorCode::AlreadyConnected => 14,
            GlobalErrorCode::CannotSendAction => 15,
        }
    }

    /// The code that goes over the wire under a number, if there is one.
    pub fn from_number(number: u32) -> (code: Option<GlobalErrorCode>)
        ensures
            match code {
                Some(code) => code.number() == number,
                None => number > 15,
            },
    {
        match number {
            0 => Some(GlobalErrorCode::UnknownError),
            1 => Some(GlobalErrorCode::MissingAppData),
            2 => Some(GlobalErrorCode::JSONPayloadError),
            3 => Some(GlobalErrorCode::FormPayloadError),
            4 => Some(GlobalErrorCode::URLPathError),
            5 => Some(GlobalErrorCode::QueryStringError),
            6 => Some(GlobalErrorCode::StructValidationError),
            7 => Some(GlobalErrorCode::InvalidJWTToken),
            8 => Some(GlobalErrorCode::GameEngineError),
            9 => Some(GlobalErrorCode::GameEngineCrash),
            10 => Some(GlobalErrorCode::WebsocketError),
            11 => Some(GlobalErrorCode::NotRegistered),
            12 => Some(GlobalErrorCode::FailedToRegister),
            13 => Some(GlobalErrorCode::FailedToUnregister),
            14 => Some(GlobalErrorCode::AlreadyConnected),
            15 => Some(GlobalErrorCode::CannotSendAction),
            _ => None,
        }
    }

    /// The code's name.
    pub fn get_name(&self) -> (name: String)
        ensures
            name@ == self.name(),
    {
        match self {
            GlobalErrorCode::UnknownError => String::from_str("UnknownError"),
            GlobalErrorCode::MissingAppData => String::from_str("MissingAppData"),
            GlobalErrorCode::JSONPayloadError => String::from_str("JSONPayloadError"),
            GlobalErrorCode::FormPayloadError => String::from_str("FormPayloadError"),
            GlobalErrorCode::URLPathError => String::from_str("URLPathError"),
            GlobalErrorCode::QueryStringError => String::from_str("QueryStringError"),
            GlobalErrorCode::StructValidationError => String::from_str("StructValidationError"),
            GlobalErrorCode::InvalidJWTToken => String::from_str("InvalidJWTToken"),
            GlobalErrorCode::GameEngineError => String::from_str("GameEngineError"),
            GlobalErrorCode::GameEngineCrash => String::from_str("GameEngineCrash"),
            GlobalErrorCode::WebsocketError => String::from_str("WebsocketError"),
            GlobalErrorCode::NotRegistered => String::from_str("NotRegistered"),
            GlobalErrorCode::FailedToRegister => String::from_str("FailedToRegister"),
            GlobalErrorCode::FailedToUnregister => String::from_str("FailedToUnregister"),
            GlobalErrorCode::AlreadyConnected => String::from_str("AlreadyConnected"),
            GlobalErrorCode::CannotSendAction => String::from_str("CannotSendAction"),
        }
    }
}

} // verus!
