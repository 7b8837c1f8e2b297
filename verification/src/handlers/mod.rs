//! What the endpoints decide once a session has asked the coordinator to
//! take it in.

pub mod connect_player;
pub mod connect_viewer;

pub use connect_player::connect_player;
pub use connect_viewer::connect_viewer;
