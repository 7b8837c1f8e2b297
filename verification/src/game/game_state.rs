use vstd::prelude::*;

verus! {

/// The life cycle of a game, from its lobby to its end.
///
/// ```text
///  Registration --> Initializing --> Running
///    ^                                  V
///    \--<-----------<--------------<----/
/// ```
///
/// Every state can go to `FatalError`.
#[derive(Debug, Clone, Copy, PartialEq, Eq, Hash, Structural)]
pub enum GameState {
    Registration,
    Initializing,
    Running,
    FatalError,
}

impl GameState {
    pub fn can_change_registration(&self) -> (allowed: bool)
        ensures
            allowed <==> *self == GameState::Registration,
    {
        match self {
            GameState::Registration => true,
            GameState::Initializing | GameState::Running | GameState::FatalError => false,
        }
    }

    pub fn can_send_action(&self) -> (allowed: bool)
        ensures
            allowed <==> *self == GameState::Running,
    {
        match self {
            GameState::Running => true,
            GameState::Registration | GameState::Initializing | GameState::FatalError => false,
        }
    }
}

} // verus!
