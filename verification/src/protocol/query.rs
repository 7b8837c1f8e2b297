use vstd::prelude::*;
use std::collections::HashMap;
use crate::game::server_state::ServerState;
use crate::jwt::jwt_data::JWTPlayerData;
use crate::PlayerId;

verus! {

/// The answers to the queries a session may make.
#[derive(Debug)]
pub enum QueryResponse {
    ServerState { state: ServerState },
    RegisteredPlayers {
        players: HashMap<PlayerId, JWTPlayerData>,
        player_order: Option<Vec<PlayerId>>,
    },
}

} // verus!
