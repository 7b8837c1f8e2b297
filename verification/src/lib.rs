//! Session server core for a tick-driven multiplayer game: the lobby and
//! broadcast coordinator, the engine driver's tick rules, the per-connection
//! session rules, and the values they exchange.
use vstd::prelude::*;

pub mod actors;
pub mod channel;
pub mod config;
pub mod errors;
pub mod game;
pub mod handlers;
pub mod jwt;
pub mod player_id;
pub mod protocol;

verus! {

/// The subprotocol under which a client hands over its token when it opens
/// a session.
pub const WS_PROTOCOL: &'static str = "game-server";

/// A player's identity: the 128 bits of the player's UUID.
pub type PlayerId = u128;

/// The identity of one open session, player's or viewer's, given by whoever
/// owns the connection.
pub type SessionHandle = u64;

} // verus!
