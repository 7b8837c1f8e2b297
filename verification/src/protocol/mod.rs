//! The messages that travel between the clients, the sessions, the
//! coordinator and the engine driver.

pub mod actions;
pub mod game;
pub mod query;
pub mod registration;
pub mod tagged_request;
pub mod websocket;

pub use actions::PlayerAction;
pub use game::{GameState, GameStateUpdate};
pub use query::QueryResponse;
pub use registration::RegistrationUpdateEnum;
pub use tagged_request::TaggedRequest;
pub use websocket::{ViewerMessage, WebsocketMessage};
