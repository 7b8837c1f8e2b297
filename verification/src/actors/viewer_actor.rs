use vstd::prelude::*;
use crate::actors::mediator_messages::ConnectViewerResponse;
use crate::actors::websocket_actor::{CloseKind, Delivery, SessionUpdate};
use crate::errors::service_error::ServiceError;
use crate::game::server_state::ServerState;
use crate::protocol::query::QueryResponse;
use crate::protocol::websocket::ViewerMessage;
use crate::PlayerId;

verus! {

/// What a viewer's session does with a message of its client.
#[derive(Debug)]
pub enum ViewerCommand {
    /// Answer at once.
    Reply(QueryResponse),
    /// Ask the coordinator who is registered, and answer with that.
    AskRegisteredPlayers,
}

/// The server's state as a viewer's session knows it after it was sent
/// `update`, having known `state` before.
pub open spec fn viewed_state(state: ServerState, update: SessionUpdate) -> ServerState {
    match update {
        SessionUpdate::GameStarting => ServerState::Initializing,
        SessionUpdate::Init => ServerState::Running,
        SessionUpdate::GameEnded => ServerState::Registration,
        _ => state,
    }
}

/// The session of one connected viewer: it takes queries and no actions.
pub struct ViewerActor {
    id: PlayerId,
    server_state: ServerState,
}

impl ViewerActor {
    /// Whom the viewer's token names.
    pub closed spec fn id(&self) -> PlayerId {
        self.id
    }

    /// The server's state as the session knows it.
    pub closed spec fn state(&self) -> ServerState {
        self.server_state
    }

    pub fn new(id: PlayerId) -> (session: Self)
        ensures
            session.id() == id,
            session.state() == ServerState::Registration,
    {
        ViewerActor { id, server_state: ServerState::Registration }
    }

    pub fn get_id(&self) -> (id: PlayerId)
        ensures
            id == self.id(),
    {
        self.id
    }

    pub fn get_server_state(&self) -> (state: ServerState)
        ensures
            state == self.state(),
    {
        self.server_state
    }

    /// What the session does with a message of its client: the server's
    /// state is answered from what the session knows, the registered
    /// players are asked of the coordinator.
    pub fn handle_message(&self, message: ViewerMessage) -> (command: ViewerCommand)
        ensures
            match message {
                ViewerMessage::GetServerState => command matches ViewerCommand::Reply(
                    QueryResponse::ServerState { state },
                ) && state == self.state(),
                ViewerMessage::GetRegisteredPlayers => command is AskRegisteredPlayers,
            },
    {
        match message {
            ViewerMessage::GetServerState => ViewerCommand::Reply(
                QueryResponse::ServerState { state: self.server_state },
            ),
            ViewerMessage::GetRegisteredPlayers => ViewerCommand::AskRegisteredPlayers,
        }
    }

    /// Takes the coordinator's answer to the session's connecting: the
    /// session learns the server's state, and is told to end with an engine
    /// crash where that state is `FatalError`.
    pub fn handle_connect_response(&mut self, response: ConnectViewerResponse) -> (delivery: Delivery)
        ensures
            final(self).id() == old(self).id(),
            final(self).state() == response.0,
            if response.0 == ServerState::FatalError {
                delivery matches Delivery::Fatal(ServiceError::GameEngineCrash, CloseKind::Error)
            } else {
                delivery is Silent
            },
    {
        self.server_state = response.0;
        if response.0 == ServerState::FatalError {
            Delivery::Fatal(ServiceError::GameEngineCrash, CloseKind::Error)
        } else {
            Delivery::Silent
        }
    }

    /// Takes what the coordinator sent: the session follows the server's
    /// state, and the message goes on to the client; an engine crash ends
    /// the session.
    pub fn handle_update(&mut self, update: SessionUpdate) -> (delivery: Delivery)
        ensures
            final(self).id() == old(self).id(),
            final(self).state() == viewed_state(old(self).state(), update),
            if update == SessionUpdate::EngineCrashed {
                delivery matches Delivery::Fatal(ServiceError::GameEngineCrash, CloseKind::Error)
            } else {
                delivery is Forward
            },
    {
        match update {
            SessionUpdate::GameStarting => {
                self.server_state = ServerState::Initializing;
            },
            SessionUpdate::Init => {
                self.server_state = ServerState::Running;
            },
            SessionUpdate::GameEnded => {
                self.server_state = ServerState::Registration;
            },
            SessionUpdate::EngineCrashed => {
                return Delivery::Fatal(ServiceError::GameEngineCrash, CloseKind::Error);
            },
            _ => {},
        }
        Delivery::Forward
    }
}

} // verus!
