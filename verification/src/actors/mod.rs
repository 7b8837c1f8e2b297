//! The coordinator and the sessions, each a state of its own that takes one
//! message at a time.

pub mod game_mediator_actor;
pub mod lobby_theorems;
pub mod mediator_messages;
pub mod message_types;
pub mod session_theorems;
pub mod shared_messages;
pub mod viewer_actor;
pub mod websocket_actor;
pub mod websocket_messages;

pub use game_mediator_actor::GameMediatorActor;
pub use viewer_actor::ViewerActor;
pub use websocket_actor::WebsocketActor;
