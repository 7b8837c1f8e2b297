use vstd::prelude::*;
use crate::protocol::tagged_request::TaggedRequest;

verus! {

/// A player's action with the tag the client may have put on it.
pub type PlayerAction = TaggedRequest<PlayerActionEnum>;

/// What a player can do in one tick.
#[derive(Debug)]
pub enum PlayerActionEnum {
    Move(MoveAction),
    Attack(AttackAction),
    DropWeapon,
}

/// Cardinal direction.
#[derive(Debug, Clone, Copy, PartialEq, Eq, Hash, Structural)]
pub enum Direction {
    Up,
    Down,
    Left,
    Right,
}

/// Move the player in the game.
#[derive(Debug)]
pub struct MoveAction {
    pub direction: Direction,
}

/// Attack in a given direction.
#[derive(Debug)]
pub struct AttackAction {
    pub direction: Direction,
}

/// Drop the weapon held.
#[derive(Debug)]
pub struct DropWeaponAction {}

} // verus!
