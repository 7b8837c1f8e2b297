use vstd::prelude::*;
use std::collections::HashMap;
use crate::game::server_state::ServerState;
use crate::jwt::jwt_data::JWTPlayerData;
use crate::{PlayerId, SessionHandle};

verus! {

/// Connect a player's session with the coordinator.
#[derive(Debug, Clone, Copy)]
pub struct Connect(pub PlayerId, pub SessionHandle);

/// The coordinator's answer to a player's session that connects.
#[derive(Debug, Clone, Copy, PartialEq, Eq, Hash, Structural)]
pub enum ConnectResponse {
    Connected(ServerState),
    NotRegistered,
    AlreadyConnected,
}

/// Disconnect a player's session from the coordinator.
#[derive(Debug, Clone, Copy)]
pub struct Disconnect(pub PlayerId, pub SessionHandle);

/// Connect a viewer's session with the coordinator.
#[derive(Debug, Clone, Copy)]
pub struct ConnectViewer(pub SessionHandle);

/// The coordinator's answer to a viewer's session that connects.
#[derive(Debug, Clone, Copy, PartialEq, Eq, Structural)]
pub struct ConnectViewerResponse(pub ServerState);

/// Disconnect a viewer's session from the coordinator.
#[derive(Debug, Clone, Copy)]
pub struct DisconnectViewer(pub SessionHandle);

/// Register a player for the next match.
#[derive(Debug)]
pub struct Register {
    pub id: PlayerId,
    pub data: JWTPlayerData,
}

/// The coordinator's answer to a registration.
#[derive(Debug, Clone, Copy, PartialEq, Eq, Structural)]
pub enum RegisterResponse {
    Success,
    GameAlreadyStarted,
    TooManyRegistered { max_allowed: usize },
}

/// Take a player's registration back.
#[derive(Debug, Clone, Copy)]
pub struct Unregister {
    pub id: PlayerId,
}

/// Ask the coordinator who is registered.
#[derive(Debug, Clone, Copy)]
pub struct GetRegisteredPlayers;

/// Who is registered, and the order of play once it is fixed.
#[derive(Debug)]
pub struct GetRegisteredPlayersResponse {
    pub players: HashMap<PlayerId, JWTPlayerData>,
    pub player_order: Option<Vec<PlayerId>>,
}

} // verus!
