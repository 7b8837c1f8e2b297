use vstd::prelude::*;
use crate::protocol::actions::{AttackAction, DropWeaponAction, MoveAction, PlayerActionEnum};

verus! {

/// A request that may carry a tag chosen by the client.
#[derive(Debug)]
pub struct TaggedRequest<T> {
    pub tag: Option<String>,
    pub data: T,
}

impl<T> TaggedRequest<T> {
    pub fn new(data: T) -> (request: Self)
        ensures
            request.tag is None,
            request.data == data,
    {
        TaggedRequest { data, tag: None }
    }

    pub fn new_tagged(data: T, tag: String) -> (request: Self)
        ensures
            request.tag == Some(tag),
            request.data == data,
    {
        TaggedRequest { data, tag: Some(tag) }
    }
}

impl TaggedRequest<MoveAction> {
    /// The same request as a player action: the tag stays, the move goes
    /// inside.
    pub fn transpose(self) -> (action: TaggedRequest<PlayerActionEnum>)
        ensures
            action.tag == self.tag,
            action.data == PlayerActionEnum::Move(self.data),
    {
        TaggedRequest { tag: self.tag, data: PlayerActionEnum::Move(self.data) }
    }
}

impl TaggedRequest<AttackAction> {
    /// The same request as a player action: the tag stays, the attack goes
    /// inside.
    pub fn transpose(self) -> (action: TaggedRequest<PlayerActionEnum>)
        ensures
            action.tag == self.tag,
            action.data == PlayerActionEnum::Attack(self.data),
    {
        TaggedRequest { tag: self.tag, data: PlayerActionEnum::Attack(self.data) }
    }
}

impl TaggedRequest<DropWeaponAction> {
    /// The same request as a player action: the tag stays.
    pub fn transpose(self) -> (action: TaggedRequest<PlayerActionEnum>)
        ensures
            action.tag == self.tag,
            action.data == PlayerActionEnum::DropWeapon,
    {
        TaggedRequest { tag: self.tag, data: PlayerActionEnum::DropWeapon }
    }
}

} // verus!
