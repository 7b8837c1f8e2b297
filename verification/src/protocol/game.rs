use vstd::prelude::*;
use std::collections::HashMap;
use crate::protocol::actions::PlayerAction;
use crate::PlayerId;

verus! {

/// The state of the game as the engine gave it: a document that the server
/// passes on and never looks into.
#[derive(Debug)]
pub struct GameState {
    pub document: String,
}

/// What the engine driver tells every session about a match.
#[derive(Debug)]
pub enum GameStateUpdate {
    /// The match has just been set up.
    Init { game_state: GameState, ticks_left: u32, seconds_per_tick: u32 },
    /// One tick has passed.
    NextState {
        game_state: GameState,
        actions_taken: HashMap<PlayerId, PlayerAction>,
        ticks_left: u32,
        seconds_per_tick: u32,
    },
    /// A player was killed.
    PlayerKilled { id: PlayerId },
    /// The match is over.
    GameEnded {
        winners: Vec<PlayerId>,
        game_state: GameState,
        actions_taken: HashMap<PlayerId, PlayerAction>,
    },
}

} // verus!
