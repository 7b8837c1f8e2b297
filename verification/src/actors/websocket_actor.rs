use vstd::prelude::*;
use vstd::string::StringExecFns;
use std::sync::mpsc::Sender;
use crate::actors::mediator_messages::{ConnectResponse, Register, RegisterResponse, Unregister};
use crate::channel::send;
use crate::errors::service_error::ServiceError;
use crate::errors::websocket_error::WebsocketError;
use crate::game::server_state::ServerState;
use crate::jwt::jwt_data::JWTPlayerData;
use crate::jwt::jwt_token::JWTToken;
use crate::protocol::actions::PlayerAction;
use crate::protocol::query::QueryResponse;
use crate::protocol::websocket::WebsocketMessage;
use crate::PlayerId;

verus! {

/// What a player's session is, as plain values: every contract of
/// [`WebsocketActor`] is stated over this.
pub struct SessionModel {
    pub player_id: PlayerId,
    pub server_state: ServerState,
    pub action_sent: bool,
    pub player_killed: bool,
}

/// The kinds of frame that a client can send.
#[derive(Debug, Clone, Copy, PartialEq, Eq, Structural)]
pub enum FrameKind {
    Nop,
    Ping,
    Pong,
    Close,
    Text,
    Binary,
    Continuation,
}

/// What a session does with a frame.
#[derive(Debug)]
pub enum FrameAction {
    /// Nothing.
    Ignore,
    /// Answer the ping with a pong.
    Pong,
    /// Close the socket and stop.
    Close,
    /// Read the text as a message.
    Parse,
    /// Tell the client of the error and stay open.
    Reject(WebsocketError),
}

/// What a session does with a frame of the given kind: pings are answered,
/// a close is followed, text is read, binary and continuation frames are
/// refused with an error that does not end the session.
pub fn frame_action(kind: FrameKind) -> (action: FrameAction)
    ensures
        match kind {
            FrameKind::Nop | FrameKind::Pong => action is Ignore,
            FrameKind::Ping => action is Pong,
            FrameKind::Close => action is Close,
            FrameKind::Text => action is Parse,
            FrameKind::Binary => action matches FrameAction::Reject(WebsocketError::UnsupportedFrameType(name))
                && name@ == "Binary"@,
            FrameKind::Continuation => action matches FrameAction::Reject(
                WebsocketError::UnsupportedFrameType(name),
            ) && name@ == "Continuation"@,
        },
{
    match kind {
        FrameKind::Nop => FrameAction::Ignore,
        FrameKind::Ping => FrameAction::Pong,
        FrameKind::Pong => FrameAction::Ignore,
        FrameKind::Close => FrameAction::Close,
        FrameKind::Text => FrameAction::Parse,
        FrameKind::Binary => FrameAction::Reject(
            WebsocketError::UnsupportedFrameType(String::from_str("Binary")),
        ),
        FrameKind::Continuation => FrameAction::Reject(
            WebsocketError::UnsupportedFrameType(String::from_str("Continuation")),
        ),
    }
}

/// What a player's session does with a message of its client.
#[derive(Debug)]
pub enum PlayerCommand {
    /// Hand the registration to the coordinator.
    Register(Register),
    /// Hand the withdrawal to the coordinator.
    Unregister(Unregister),
    /// Answer at once.
    Reply(QueryResponse),
    /// Ask the coordinator who is registered, and answer with that.
    AskRegisteredPlayers,
    /// The action was handed to the engine driver: nothing to answer.
    ActionSent,
    /// Tell the client of the error and stay open.
    Reject(ServiceError),
}

/// What the coordinator sends to a session.
#[derive(Debug, Clone, Copy, PartialEq, Eq, Structural)]
pub enum SessionUpdate {
    RegistrationUpdate,
    GameStarting,
    Init,
    NextState,
    PlayerKilled(PlayerId),
    GameEnded,
    EngineCrashed,
}

/// How a socket is closed.
#[derive(Debug, Clone, Copy, PartialEq, Eq, Structural)]
pub enum CloseKind {
    Error,
    Abnormal,
}

/// What a session does with what it was sent.
#[derive(Debug)]
pub enum Delivery {
    /// Nothing goes to the client.
    Silent,
    /// The message goes to the client as it came.
    Forward,
    /// The socket is closed.
    Close(CloseKind),
    /// The client is told of the error, the socket is closed and the
    /// session stops.
    Fatal(ServiceError, CloseKind),
}

impl SessionModel {
    /// A session that has just been opened.
    pub open spec fn initial(player_id: PlayerId) -> SessionModel {
        SessionModel {
            player_id,
            server_state: ServerState::Registration,
            action_sent: false,
            player_killed: false,
        }
    }

    /// Why an action cannot be taken now, if it cannot: the player was
    /// killed; or no match is running; or the player has acted in this tick.
    pub open spec fn refusal(self) -> Option<Seq<char>> {
        if self.player_killed {
            Some("player has been killed"@)
        } else if self.server_state != ServerState::Running {
            Some("game has not started yet"@)
        } else if self.action_sent {
            Some("already sent player action"@)
        } else {
            None
        }
    }

    /// The session after the engine driver was handed an action, or was
    /// not.
    pub open spec fn action_enqueued(self, sent: bool) -> SessionModel {
        if sent {
            SessionModel { action_sent: true, ..self }
        } else {
            self
        }
    }

    /// The session after it was sent `update`.
    pub open spec fn updated(self, update: SessionUpdate) -> SessionModel {
        match update {
            SessionUpdate::RegistrationUpdate => self,
            SessionUpdate::GameStarting => SessionModel { server_state: ServerState::Initializing, ..self },
            SessionUpdate::Init => SessionModel {
                server_state: ServerState::Running,
                action_sent: false,
                player_killed: false,
                ..self
            },
            SessionUpdate::NextState => SessionModel { action_sent: false, ..self },
            SessionUpdate::PlayerKilled(id) => if id == self.player_id {
                SessionModel { player_killed: true, ..self }
            } else {
                self
            },
            SessionUpdate::GameEnded => SessionModel { server_state: ServerState::Registration, ..self },
            SessionUpdate::EngineCrashed => self,
        }
    }
}

/// `error` says that an action cannot be taken, for the reason `why`.
pub open spec fn is_refusal(error: ServiceError, why: Seq<char>) -> bool {
    error matches ServiceError::CannotSendAction { why: text } && text@ == why
}

/// The session of one connected player.
pub struct WebsocketActor {
    player_id: PlayerId,
    player_data: JWTPlayerData,
    server_state: ServerState,
    action_sent: bool,
    player_killed: bool,
}

impl View for WebsocketActor {
    type V = SessionModel;

    closed spec fn view(&self) -> SessionModel {
        SessionModel {
            player_id: self.player_id,
            server_state: self.server_state,
            action_sent: self.action_sent,
            player_killed: self.player_killed,
        }
    }
}

impl WebsocketActor {
    /// The profile that came with the player's token.
    pub closed spec fn profile(&self) -> JWTPlayerData {
        self.player_data
    }

    /// The session of the player that the token names.
    pub fn new(player_token: JWTToken<JWTPlayerData>) -> (session: Self)
        ensures
            session@ == SessionModel::initial(player_token.sub),
            session.profile() == player_token.user_data,
    {
        WebsocketActor {
            player_id: player_token.get_id(),
            player_data: player_token.into_data(),
            server_state: ServerState::Registration,
            action_sent: false,
            player_killed: false,
        }
    }

    pub fn get_player_id(&self) -> (id: PlayerId)
        ensures
            id == self@.player_id,
    {
        self.player_id
    }

    pub fn get_server_state(&self) -> (state: ServerState)
        ensures
            state == self@.server_state,
    {
        self.server_state
    }

    /// The error that refuses an action now, if one does.
    pub fn check_action(&self) -> (refusal: Option<ServiceError>)
        ensures
            match self@.refusal() {
                Some(why) => refusal is Some && is_refusal(refusal->Some_0, why),
                None => refusal is None,
            },
    {
        if self.player_killed {
            return Some(ServiceError::CannotSendAction { why: String::from_str("player has been killed") });
        }
        if !self.server_state.can_send_action() {
            return Some(
                ServiceError::CannotSendAction { why: String::from_str("game has not started yet") },
            );
        }
        if self.action_sent {
            return Some(
                ServiceError::CannotSendAction { why: String::from_str("already sent player action") },
            );
        }
        None
    }

    /// Notes whether the engine driver was handed the player's action: if
    /// so, the player has acted in this tick; if not, the client is told
    /// of a channel error.
    pub fn action_enqueued(&mut self, sent: bool) -> (result: Result<(), ServiceError>)
        ensures
            final(self)@ == old(self)@.action_enqueued(sent),
            final(self).profile() == old(self).profile(),
            sent ==> result is Ok,
            !sent ==> result is Err && is_refusal(result->Err_0, "channel error"@),
    {
        if sent {
            self.action_sent = true;
            Ok(())
        } else {
            Err(ServiceError::CannotSendAction { why: String::from_str("channel error") })
        }
    }

    /// Takes an action of the player. It is refused where the player was
    /// killed, where no match is running, and where the player has acted in
    /// this tick already, in this order. Otherwise it is handed to the
    /// engine driver, and the player has acted in this tick; if the driver
    /// is gone, the action is refused with a channel error.
    pub fn do_action(&mut self, action: PlayerAction, sender: &Sender<(PlayerId, PlayerAction)>) -> (result:
        Result<(), ServiceError>)
        ensures
            final(self).profile() == old(self).profile(),
            match old(self)@.refusal() {
                Some(why) => result is Err && is_refusal(result->Err_0, why) && final(self)@ == old(self)@,
                None => final(self)@ == old(self)@.action_enqueued(result is Ok) && (result is Err
                    ==> is_refusal(result->Err_0, "channel error"@)),
            },
    {
        match self.check_action() {
            Some(error) => Err(error),
            None => {
                let sent = send(sender, (self.player_id, action));
                self.action_enqueued(sent)
            },
        }
    }

    /// What the session does with a message of its client. Registration
    /// goes to the coordinator with the player's id and profile; the
    /// server's state is answered from what the session knows; an action
    /// goes the way of [`WebsocketActor::do_action`].
    pub fn handle_message(&mut self, message: WebsocketMessage, sender: &Sender<(PlayerId, PlayerAction)>) -> (command:
        PlayerCommand)
        ensures
            final(self).profile() == old(self).profile(),
            match message {
                WebsocketMessage::Register => final(self)@ == old(self)@ && (command matches PlayerCommand::Register(
                    request,
                ) && request.id == old(self)@.player_id && request.data == old(self).profile()),
                WebsocketMessage::Unregister => final(self)@ == old(self)@ && (
                command matches PlayerCommand::Unregister(request) && request.id == old(self)@.player_id),
                WebsocketMessage::GetServerState => final(self)@ == old(self)@ && (
                command matches PlayerCommand::Reply(QueryResponse::ServerState { state }) && state == old(
                    self,
                )@.server_state),
                WebsocketMessage::GetRegisteredPlayers => final(self)@ == old(self)@
                    && command is AskRegisteredPlayers,
                WebsocketMessage::Move(_) | WebsocketMessage::Attack(_) | WebsocketMessage::DropWeapon(_) => {
                    match old(self)@.refusal() {
                        Some(why) => (command matches PlayerCommand::Reject(error) && is_refusal(error, why))
                            && final(self)@ == old(self)@,
                        None => final(self)@ == old(self)@.action_enqueued(command is ActionSent) && (
                        command is ActionSent || (command matches PlayerCommand::Reject(error)
                            && is_refusal(error, "channel error"@))),
                    }
                },
            },
    {
        match message {
            WebsocketMessage::Register => PlayerCommand::Register(
                Register { id: self.player_id, data: self.player_data.clone() },
            ),
            WebsocketMessage::Unregister => PlayerCommand::Unregister(Unregister { id: self.player_id }),
            WebsocketMessage::GetServerState => PlayerCommand::Reply(
                QueryResponse::ServerState { state: self.server_state },
            ),
            WebsocketMessage::GetRegisteredPlayers => PlayerCommand::AskRegisteredPlayers,
            WebsocketMessage::Move(action) => self.action_command(action.transpose(), sender),
            WebsocketMessage::Attack(action) => self.action_command(action.transpose(), sender),
            WebsocketMessage::DropWeapon(action) => self.action_command(action.transpose(), sender),
        }
    }

    /// Takes an action and says what the client is to hear of it.
    fn action_command(&mut self, action: PlayerAction, sender: &Sender<(PlayerId, PlayerAction)>) -> (command:
        PlayerCommand)
        ensures
            final(self).profile() == old(self).profile(),
            match old(self)@.refusal() {
                Some(why) => (command matches PlayerCommand::Reject(error) && is_refusal(error, why))
                    && final(self)@ == old(self)@,
                None => final(self)@ == old(self)@.action_enqueued(command is ActionSent) && (
                command is ActionSent || (command matches PlayerCommand::Reject(error) && is_refusal(
                    error,
                    "channel error"@,
                ))),
            },
    {
        match self.do_action(action, sender) {
            Ok(()) => PlayerCommand::ActionSent,
            Err(error) => PlayerCommand::Reject(error),
        }
    }

    /// Takes the coordinator's answer to the session's connecting: with
    /// `Connected` the session learns the server's state, and is told to
    /// end with an engine crash where that state is `FatalError`; any other
    /// answer closes the socket.
    pub fn handle_connect_response(&mut self, response: ConnectResponse) -> (delivery: Delivery)
        ensures
            final(self).profile() == old(self).profile(),
            match response {
                ConnectResponse::Connected(state) => final(self)@ == (SessionModel {
                    server_state: state,
                    ..old(self)@
                }) && if state == ServerState::FatalError {
                    delivery matches Delivery::Fatal(ServiceError::GameEngineCrash, CloseKind::Error)
                } else {
                    delivery is Silent
                },
                _ => final(self)@ == old(self)@ && delivery matches Delivery::Close(CloseKind::Abnormal),
            },
    {
        match response {
            ConnectResponse::Connected(state) => {
                self.server_state = state;
                if state == ServerState::FatalError {
                    Delivery::Fatal(ServiceError::GameEngineCrash, CloseKind::Error)
                } else {
                    Delivery::Silent
                }
            },
            _ => Delivery::Close(CloseKind::Abnormal),
        }
    }

    /// Takes what the coordinator sent: the session's state follows it,
    /// and the message goes on to the client; an engine crash ends the
    /// session.
    pub fn handle_update(&mut self, update: SessionUpdate) -> (delivery: Delivery)
        ensures
            final(self).profile() == old(self).profile(),
            final(self)@ == old(self)@.updated(update),
            if update == SessionUpdate::EngineCrashed {
                delivery matches Delivery::Fatal(ServiceError::GameEngineCrash, CloseKind::Error)
            } else {
                delivery is Forward
            },
    {
        match update {
            SessionUpdate::RegistrationUpdate => {},
            SessionUpdate::GameStarting => {
                self.server_state = ServerState::Initializing;
            },
            SessionUpdate::Init => {
                self.server_state = ServerState::Running;
                self.action_sent = false;
                self.player_killed = false;
            },
            SessionUpdate::NextState => {
                self.action_sent = false;
            },
            SessionUpdate::PlayerKilled(id) => {
                if id == self.player_id {
                    self.player_killed = true;
                }
            },
            SessionUpdate::GameEnded => {
                self.server_state = ServerState::Registration;
            },
            SessionUpdate::EngineCrashed => {
                return Delivery::Fatal(ServiceError::GameEngineCrash, CloseKind::Error);
            },
        }
        Delivery::Forward
    }

    /// The match started without the player: the session ends.
    pub fn handle_kick(&self) -> (delivery: Delivery)
        ensures
            delivery matches Delivery::Fatal(ServiceError::NotRegistered(id), CloseKind::Error) && id
                == self@.player_id,
    {
        Delivery::Fatal(ServiceError::NotRegistered(self.player_id), CloseKind::Error)
    }

    /// What the client is told of the coordinator's answer to a
    /// registration: nothing where it succeeded, else why it failed.
    pub fn register_result(&self, response: RegisterResponse) -> (error: Option<ServiceError>)
        ensures
            match response {
                RegisterResponse::Success => error is None,
                RegisterResponse::GameAlreadyStarted => error matches Some(
                    ServiceError::FailedToRegister(id, why),
                ) && id == self@.player_id && why@ == "game already started"@,
                RegisterResponse::TooManyRegistered { max_allowed } => error matches Some(
                    ServiceError::FailedToRegister(id, why),
                ) && id == self@.player_id && exists|number: String|
                    vstd::string::to_string_from_display_ensures::<usize>(&max_allowed, number) && why@
                        == "too many players registered ("@ + number@ + " maximum allowed)"@,
            },
    {
        match response {
            RegisterResponse::Success => None,
            RegisterResponse::GameAlreadyStarted => Some(
                ServiceError::FailedToRegister(self.player_id, String::from_str("game already started")),
            ),
            RegisterResponse::TooManyRegistered { max_allowed } => {
                let number = max_allowed.to_string();
                let why = String::from_str("too many players registered (").concat(number.as_str()).concat(
                    " maximum allowed)",
                );
                Some(ServiceError::FailedToRegister(self.player_id, why))
            },
        }
    }

    /// What the client is told of the coordinator's answer to a
    /// withdrawal: nothing where it succeeded.
    pub fn unregister_result(&self, unregistered: bool) -> (error: Option<ServiceError>)
        ensures
            unregistered ==> error is None,
            !unregistered ==> (error matches Some(ServiceError::FailedToUnregister(id)) && id
                == self@.player_id),
    {
        if unregistered {
            None
        } else {
            Some(ServiceError::FailedToUnregister(self.player_id))
        }
    }
}

} // verus!
