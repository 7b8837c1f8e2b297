use vstd::prelude::*;
use vstd::string::StringExecFns;

verus! {

/// Every way in which the scripted engine can fail. Each holds, as text,
/// what the engine or the system said.
#[derive(Debug)]
pub enum GameEngineError {
    FailedToReadLuaFile(String),
    FailedToRunLuaFile(String),
    MissingRequiredLuaMethod(String, String),
    FailedToRunMethod(String, String),
    JSONToLua(String),
    LuaToJSON(String),
    ChannelClosed(String, String),
}

impl GameEngineError {
    /// What a developer is told of the failure.
    pub open spec fn developer_notes(self) -> Seq<char> {
        match self {
            GameEngineError::FailedToReadLuaFile(error) => "Failed to read Lua file: "@ + error@,
            GameEngineError::FailedToRunLuaFile(error) => "Failed to run Lua file: "@ + error@,
            GameEngineError::MissingRequiredLuaMethod(method, error) => "Missing required method: "@
                + method@ + " ("@ + error@ + ")"@,
            GameEngineError::FailedToRunMethod(method, error) => "Failed to run method "@ + method@
                + ": "@ + error@,
            GameEngineError::JSONToLua(error) => "Failed to serialize JSON to Lua value: "@ + error@,
            GameEngineError::LuaToJSON(error) => "Failed to serialize Lua to JSON value: "@ + error@,
            GameEngineError::ChannelClosed(channel, error) => "Channel "@ + channel@ + " closed: "@
                + error@,
        }
    }

    pub fn get_developer_notes(&self) -> (notes: String)
        ensures
            notes@ == self.developer_notes(),
    {
        match self {
            GameEngineError::FailedToReadLuaFile(error) => {
                String::from_str("Failed to read Lua file: ").concat(error.as_str())
            },
            GameEngineError::FailedToRunLuaFile(error) => {
                String::from_str("Failed to run Lua file: ").concat(error.as_str())
            },
            GameEngineError::MissingRequiredLuaMethod(method, error) => {
                String::from_str("Missing required method: ").concat(method.as_str()).concat(" (").concat(
                    error.as_str(),
                ).concat(")")
            },
            GameEngineError::FailedToRunMethod(method, error) => {
                String::from_str("Failed to run method ").concat(method.as_str()).concat(": ").concat(
                    error.as_str(),
                )
            },
            GameEngineError::JSONToLua(error) => {
                String::from_str("Failed to serialize JSON to Lua value: ").concat(error.as_str())
            },
            GameEngineError::LuaToJSON(error) => {
                String::from_str("Failed to serialize Lua to JSON value: ").concat(error.as_str())
            },
            GameEngineError::ChannelClosed(channel, error) => {
                String::from_str("Channel ").concat(channel.as_str()).concat(" closed: ").concat(
                    error.as_str(),
                )
            },
        }
    }
}

} // verus!
