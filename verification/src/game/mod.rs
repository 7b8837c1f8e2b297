//! Data types and rules needed for running a match.

pub mod game_player;
pub mod game_state;
pub mod match_theorems;
pub mod server_state;

pub use game_player::GamePlayer;
pub use game_state::GameState;
pub use server_state::ServerState;
