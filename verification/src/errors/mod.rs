//! The errors of the server and what a client is told of each.

pub mod error_response;
pub mod game_engine_error;
pub mod global_error_codes;
pub mod service_error;
pub mod websocket_error;

pub use error_response::ErrorResponse;
pub use game_engine_error::GameEngineError;
pub use global_error_codes::GlobalErrorCode;
pub use service_error::ServiceError;
pub use websocket_error::WebsocketError;
