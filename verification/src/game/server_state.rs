use vstd::prelude::*;

verus! {

/// The life cycle of the server.
///
/// ```text
///  Registration --> Initializing --> Running
///    ^                                  V
///    \--<-----------<--------------<----/
/// ```
///
/// Every state can go to `FatalError`, which is never left.
#[derive(Debug, Clone, Copy, PartialEq, Eq, Hash, Structural)]
pub enum ServerState {
    Registration,
    Initializing,
    Running,
    FatalError,
}

impl ServerState {
    /// Players may register and unregister only in the lobby.
    pub fn can_change_registration(&self) -> (allowed: bool)
        ensures
            allowed <==> *self == ServerState::Registration,
    {
        match self {
            ServerState::Registration => true,
            ServerState::Initializing | ServerState::Running | ServerState::FatalError => false,
        }
    }

    /// Actions are taken only while a match is running.
    pub fn can_send_action(&self) -> (allowed: bool)
        ensures
            allowed <==> *self == ServerState::Running,
    {
        match self {
            ServerState::Running => true,
            ServerState::Registration | ServerState::Initializing | ServerState::FatalError => false,
        }
    }
}

} // verus!
