use vstd::prelude::*;

verus! {

/// Tells a player's session to close: the match started without the player.
#[derive(Debug, Clone, Copy)]
pub struct KickUnregisteredPlayer;

} // verus!
