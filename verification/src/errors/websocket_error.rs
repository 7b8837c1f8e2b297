use vstd::prelude::*;
use vstd::string::StringExecFns;

verus! {

/// What can go wrong with one frame of a session. Each holds, as text,
/// what the transport or the parser said.
#[derive(Debug)]
pub enum WebsocketError {
    ProtocolError(String),
    JSONError(String),
    UnsupportedFrameType(String),
}

impl WebsocketError {
    /// What a developer is told of the failure.
    pub open spec fn developer_notes(self) -> Seq<char> {
        match self {
            WebsocketError::ProtocolError(error) => "ProtocolError: "@ + error@,
            WebsocketError::JSONError(error) => "JSONError: "@ + error@,
            WebsocketError::UnsupportedFrameType(kind) => "UnsupportedFrameType: "@ + kind@,
        }
    }

    pub fn get_developer_notes(&self) -> (notes: String)
        ensures
            notes@ == self.developer_notes(),
    {
        match self {
            WebsocketError::ProtocolError(error) => {
                String::from_str("ProtocolError: ").concat(error.as_str())
            },
            WebsocketError::JSONError(error) => String::from_str("JSONError: ").concat(error.as_str()),
            WebsocketError::UnsupportedFrameType(kind) => {
                String::from_str("UnsupportedFrameType: ").concat(kind.as_str())
            },
        }
    }
}

} // verus!
