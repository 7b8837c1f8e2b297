use vstd::prelude::*;
use std::collections::HashMap;
use crate::jwt::jwt_data::JWTPlayerData;
use crate::PlayerId;

verus! {

/// What the lobby tells every session.
#[derive(Debug)]
pub enum RegistrationUpdateEnum {
    /// Sent whenever a player registers or unregisters while too few are
    /// registered.
    WaitingOnPlayers {
        players: HashMap<PlayerId, JWTPlayerData>,
        min_players_needed: usize,
        max_players_allowed: usize,
    },
    /// Enough players are registered and the match will start soon.
    GameStartingSoon {
        players: HashMap<PlayerId, JWTPlayerData>,
        min_players_needed: usize,
        max_players_allowed: usize,
        seconds_left: u32,
    },
    /// The match starts now.
    GameStarting { players: HashMap<PlayerId, JWTPlayerData>, player_order: Vec<PlayerId> },
}

} // verus!
