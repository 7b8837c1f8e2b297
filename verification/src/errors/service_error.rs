use vstd::prelude::*;
use vstd::string::StringExecFns;
use crate::errors::error_response::{ErrorResponse, ErrorResponseModel};
use crate::errors::game_engine_error::GameEngineError;
use crate::errors::global_error_codes::GlobalErrorCode;
use crate::errors::websocket_error::WebsocketError;
use crate::player_id::{format_uuid, uuid_text};
use crate::PlayerId;

verus! {

/// Every error that the server can meet. Where the error came from the
/// web framework or the token library, it holds what that said, as text.
#[derive(Debug)]
pub enum ServiceError {
    MissingAppData(String),
    JSONPayloadError(String),
    FormPayloadError(String),
    URLPathError(String),
    QueryStringError(String),
    JWTError(String),
    JWTExtractorError(String),
    MissingWebsocketJWT,
    WebsocketJWTParseError(String),
    WebsocketError(WebsocketError),
    WebsocketMailboxError(String),
    NotRegistered(PlayerId),
    FailedToRegister(PlayerId, String),
    FailedToUnregister(PlayerId),
    AlreadyConnected(PlayerId),
    GameEngineError(GameEngineError),
    GameEngineCrash,
    CannotSendAction { why: String },
}

impl ServiceError {
    /// The HTTP status that goes with the error.
    pub open spec fn status_code(self) -> u16 {
        match self {
            ServiceError::MissingAppData(_) => 500,
            ServiceError::JSONPayloadError(_) => 400,
            ServiceError::FormPayloadError(_) => 400,
            ServiceError::URLPathError(_) => 400,
            ServiceError::QueryStringError(_) => 400,
            ServiceError::JWTError(_) => 401,
            ServiceError::JWTExtractorError(_) => 401,
            ServiceError::MissingWebsocketJWT => 401,
            ServiceError::WebsocketJWTParseError(_) => 401,
            ServiceError::WebsocketError(_) => 500,
            ServiceError::WebsocketMailboxError(_) => 500,
            ServiceError::NotRegistered(_) => 409,
            ServiceError::FailedToRegister(_, _) => 409,
            ServiceError::FailedToUnregister(_) => 409,
            ServiceError::AlreadyConnected(_) => 409,
            ServiceError::GameEngineError(_) => 500,
            ServiceError::GameEngineCrash => 500,
            ServiceError::CannotSendAction { .. } => 409,
        }
    }

    /// What the client is told.
    pub open spec fn description(self) -> Seq<char> {
        match self {
            ServiceError::MissingAppData(_) => "Server Misconfiguration"@,
            ServiceError::JSONPayloadError(_) => "Invalid JSON Object"@,
            ServiceError::FormPayloadError(_) => "Invalid Form Data"@,
            ServiceError::URLPathError(_) => "Invalid URL Path"@,
            ServiceError::QueryStringError(_) => "Invalid Query String"@,
            ServiceError::JWTError(_) => "Invalid JWT Token"@,
            ServiceError::JWTExtractorError(_) => "Invalid JWT Token"@,
            ServiceError::MissingWebsocketJWT => "Invalid JWT Token"@,
            ServiceError::WebsocketJWTParseError(_) => "Invalid JWT Token"@,
            ServiceError::WebsocketError(_) => "Unexpected websocket error"@,
            ServiceError::WebsocketMailboxError(_) => "Actix message error"@,
            ServiceError::NotRegistered(_) => "Player not registered to play in the game"@,
            ServiceError::FailedToRegister(_, why) => "Failed to register player: "@ + why@,
            ServiceError::FailedToUnregister(_) => "Failed to unregister player"@,
            ServiceError::AlreadyConnected(_) => "Player already connected on another websocket"@,
            ServiceError::GameEngineError(_) => "Internal game engine error"@,
            ServiceError::GameEngineCrash => "Game engine has crashed"@,
            ServiceError::CannotSendAction { why } => "Cannot send action: "@ + why@,
        }
    }

    /// The code the client is given.
    pub open spec fn error_code(self) -> GlobalErrorCode {
        match self {
            ServiceError::MissingAppData(_) => GlobalErrorCode::MissingAppData,
            ServiceError::JSONPayloadError(_) => GlobalErrorCode::JSONPayloadError,
            ServiceError::FormPayloadError(_) => GlobalErrorCode::FormPayloadError,
            ServiceError::URLPathError(_) => GlobalErrorCode::URLPathError,
            ServiceError::QueryStringError(_) => GlobalErrorCode::QueryStringError,
            ServiceError::JWTError(_) => GlobalErrorCode::InvalidJWTToken,
            ServiceError::JWTExtractorError(_) => GlobalErrorCode::InvalidJWTToken,
            ServiceError::MissingWebsocketJWT => GlobalErrorCode::InvalidJWTToken,
            ServiceError::WebsocketJWTParseError(_) => GlobalErrorCode::InvalidJWTToken,
            ServiceError::WebsocketError(_) => GlobalErrorCode::WebsocketError,
            ServiceError::WebsocketMailboxError(_) => GlobalErrorCode::WebsocketError,
            ServiceError::NotRegistered(_) => GlobalErrorCode::NotRegistered,
            ServiceError::FailedToRegister(_, _) => GlobalErrorCode::FailedToRegister,
            ServiceError::FailedToUnregister(_) => GlobalErrorCode::FailedToUnregister,
            ServiceError::AlreadyConnected(_) => GlobalErrorCode::AlreadyConnected,
            ServiceError::GameEngineError(_) => GlobalErrorCode::GameEngineError,
            ServiceError::GameEngineCrash => GlobalErrorCode::GameEngineCrash,
            ServiceError::CannotSendAction { .. } => GlobalErrorCode::CannotSendAction,
        }
    }

    /// What a developer is told on top.
    pub open spec fn developer_notes(self) -> Seq<char> {
        match self {
            ServiceError::MissingAppData(data) => "'"@ + data@ + "' not configured using App::data()"@,
            ServiceError::JSONPayloadError(error) => error@,
            ServiceError::FormPayloadError(error) => error@,
            ServiceError::URLPathError(error) => error@,
            ServiceError::QueryStringError(error) => error@,
            ServiceError::JWTError(error) => error@,
            ServiceError::JWTExtractorError(error) => error@,
            ServiceError::MissingWebsocketJWT => "Missing JWT token in 'Sec-WebSocket-Protocol' header"@,
            ServiceError::WebsocketJWTParseError(error) => error@,
            ServiceError::WebsocketError(error) => error.developer_notes(),
            ServiceError::WebsocketMailboxError(error) => error@,
            ServiceError::NotRegistered(id) => "Player ID: "@ + uuid_text(id),
            ServiceError::FailedToRegister(id, _) => "Player ID: "@ + uuid_text(id),
            ServiceError::FailedToUnregister(id) => "Player ID: "@ + uuid_text(id),
            ServiceError::AlreadyConnected(id) => "Player ID: "@ + uuid_text(id),
            ServiceError::GameEngineError(error) => error.developer_notes(),
            ServiceError::GameEngineCrash => ""@,
            ServiceError::CannotSendAction { .. } => ""@,
        }
    }

    /// What the client is told of the error, in full.
    pub open spec fn response(self) -> ErrorResponseModel {
        ErrorResponseModel {
            status_code: self.status_code(),
            description: self.description(),
            error_code: self.error_code(),
            developer_notes: Some(self.developer_notes()),
        }
    }

    /// What the client is told of the error.
    pub fn get_error_response(&self) -> (response: ErrorResponse)
        ensures
            response@ == self.response(),
    {
        match self {
            ServiceError::MissingAppData(data) => ErrorResponse::new(
                500,
                String::from_str("Server Misconfiguration"),
                GlobalErrorCode::MissingAppData,
                String::from_str("'").concat(data.as_str()).concat("' not configured using App::data()"),
            ),
            ServiceError::JSONPayloadError(error) => ErrorResponse::new(
                400,
                String::from_str("Invalid JSON Object"),
                GlobalErrorCode::JSONPayloadError,
                error.clone(),
            ),
            ServiceError::FormPayloadError(error) => ErrorResponse::new(
                400,
                String::from_str("Invalid Form Data"),
                GlobalErrorCode::FormPayloadError,
                error.clone(),
            ),
            ServiceError::URLPathError(error) => ErrorResponse::new(
                400,
                String::from_str("Invalid URL Path"),
                GlobalErrorCode::URLPathError,
                error.clone(),
            ),
            ServiceError::QueryStringError(error) => ErrorResponse::new(
                400,
                String::from_str("Invalid Query String"),
                GlobalErrorCode::QueryStringError,
                error.clone(),
            ),
            ServiceError::JWTError(error) => ErrorResponse::new(
                401,
                String::from_str("Invalid JWT Token"),
                GlobalErrorCode::InvalidJWTToken,
                error.clone(),
            ),
            ServiceError::JWTExtractorError(error) => ErrorResponse::new(
                401,
                String::from_str("Invalid JWT Token"),
                GlobalErrorCode::InvalidJWTToken,
                error.clone(),
            ),
            ServiceError::MissingWebsocketJWT => ErrorResponse::new(
                401,
                String::from_str("Invalid JWT Token"),
                GlobalErrorCode::InvalidJWTToken,
                String::from_str("Missing JWT token in 'Sec-WebSocket-Protocol' header"),
            ),
            ServiceError::WebsocketJWTParseError(error) => ErrorResponse::new(
                401,
                String::from_str("Invalid JWT Token"),
                GlobalErrorCode::InvalidJWTToken,
                error.clone(),
            ),
            ServiceError::WebsocketError(error) => ErrorResponse::new(
                500,
                String::from_str("Unexpected websocket error"),
                GlobalErrorCode::WebsocketError,
                error.get_developer_notes(),
            ),
            ServiceError::WebsocketMailboxError(error) => ErrorResponse::new(
                500,
                String::from_str("Actix message error"),
                GlobalErrorCode::WebsocketError,
                error.clone(),
            ),
            ServiceError::NotRegistered(player_id) => ErrorResponse::new(
                409,
                String::from_str("Player not registered to play in the game"),
                GlobalErrorCode::NotRegistered,
                Self::player_notes(*player_id),
            ),
            ServiceError::FailedToRegister(player_id, why) => ErrorResponse::new(
                409,
                String::from_str("Failed to register player: ").concat(why.as_str()),
                GlobalErrorCode::FailedToRegister,
                Self::player_notes(*player_id),
            ),
            ServiceError::FailedToUnregister(player_id) => ErrorResponse::new(
                409,
                String::from_str("Failed to unregister player"),
                GlobalErrorCode::FailedToUnregister,
                Self::player_notes(*player_id),
            ),
            ServiceError::AlreadyConnected(player_id) => ErrorResponse::new(
                409,
                String::from_str("Player already connected on another websocket"),
                GlobalErrorCode::AlreadyConnected,
                Self::player_notes(*player_id),
            ),
            ServiceError::GameEngineError(error) => ErrorResponse::new(
                500,
                String::from_str("Internal game engine error"),
                GlobalErrorCode::GameEngineError,
                error.get_developer_notes(),
            ),
            ServiceError::GameEngineCrash => ErrorResponse::new(
                500,
                String::from_str("Game engine has crashed"),
                GlobalErrorCode::GameEngineCrash,
                String::from_str(""),
            ),
            ServiceError::CannotSendAction { why } => ErrorResponse::new(
                409,
                String::from_str("Cannot send action: ").concat(why.as_str()),
                GlobalErrorCode::CannotSendAction,
                String::from_str(""),
            ),
        }
    }

    /// The notes that name the player an error is about.
    fn player_notes(player_id: PlayerId) -> (notes: String)
        ensures
            notes@ == "Player ID: "@ + uuid_text(player_id),
    {
        let text = format_uuid(player_id);
        String::from_str("Player ID: ").concat(text.as_str())
    }

    /// What the client is told of the error, in one text.
    pub fn to_text(&self) -> (text: String)
        ensures
            text@ == self.response().text(),
    {
        self.get_error_response().to_text()
    }
}

} // verus!
