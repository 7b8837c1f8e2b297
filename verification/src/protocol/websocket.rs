use vstd::prelude::*;
use crate::protocol::actions::{AttackAction, DropWeaponAction, MoveAction};
use crate::protocol::tagged_request::TaggedRequest;

verus! {

/// Every message that a player may send.
#[derive(Debug)]
pub enum WebsocketMessage {
    Register,
    Unregister,
    GetServerState,
    GetRegisteredPlayers,
    Move(TaggedRequest<MoveAction>),
    Attack(TaggedRequest<AttackAction>),
    DropWeapon(TaggedRequest<DropWeaponAction>),
}

/// Every message that a viewer may send.
#[derive(Debug, Clone, Copy, PartialEq, Eq, Structural)]
pub enum ViewerMessage {
    GetServerState,
    GetRegisteredPlayers,
}

} // verus!
