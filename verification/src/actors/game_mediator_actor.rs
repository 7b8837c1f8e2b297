use vstd::prelude::*;
use vstd::std_specs::iter::IteratorSpec;
use std::collections::{HashMap, HashSet};
use std::sync::mpsc::Sender;
use crate::actors::mediator_messages::{
    Connect, ConnectResponse, ConnectViewer, ConnectViewerResponse, Disconnect, DisconnectViewer,
    GetRegisteredPlayers, GetRegisteredPlayersResponse, Register, RegisterResponse, Unregister,
};
use crate::actors::message_types::{IsGameRunning, IsPlayerConnected, IsPlayerRegistered};
use crate::channel::send;
use crate::actors::shared_messages::{
    GameEnded, GameEngineCrash, GameStarting, Init, NextState, PlayerKilled, RegistrationUpdate,
};
use crate::game::server_state::ServerState;
use crate::jwt::jwt_data::JWTPlayerData;
use crate::protocol::registration::RegistrationUpdateEnum;
use crate::{PlayerId, SessionHandle};

verus! {

/// What the coordinator is, as plain mathematics: every contract of
/// [`GameMediatorActor`] is stated over this.
pub struct LobbyModel {
    pub state: ServerState,
    pub registered: Map<PlayerId, JWTPlayerData>,
    pub connected: Map<PlayerId, SessionHandle>,
    pub viewers: Set<SessionHandle>,
    pub player_order: Option<Seq<PlayerId>>,
    pub min_players: usize,
    pub max_players: usize,
    pub lobby_wait_secs: u32,
    pub secs_left: u32,
}

impl LobbyModel {
    /// What always holds of a coordinator: the cap is not below the minimum,
    /// no more players are registered than the cap allows, and while the
    /// lobby is open the countdown has not run out.
    pub open spec fn wf(self) -> bool {
        &&& self.registered.dom().finite()
        &&& self.connected.dom().finite()
        &&& self.viewers.finite()
        &&& self.min_players <= self.max_players
        &&& self.registered.len() <= self.max_players
        &&& 1 <= self.lobby_wait_secs
        &&& self.secs_left <= self.lobby_wait_secs
        &&& (self.state == ServerState::Registration ==> 1 <= self.secs_left)
    }

    /// A coordinator that has just been made.
    pub open spec fn initial(min_players: usize, max_players: usize, lobby_wait_secs: u32) -> LobbyModel {
        LobbyModel {
            state: ServerState::Registration,
            registered: Map::empty(),
            connected: Map::empty(),
            viewers: Set::empty(),
            player_order: None,
            min_players,
            max_players: if max_players < min_players {
                min_players
            } else {
                max_players
            },
            lobby_wait_secs,
            secs_left: lobby_wait_secs,
        }
    }

    /// Enough players are registered for a match.
    pub open spec fn enough_players(self) -> bool {
        self.registered.len() >= self.min_players
    }

    /// The answer to a player's session that connects.
    pub open spec fn connect_response(self, id: PlayerId) -> ConnectResponse {
        if self.connected.contains_key(id) {
            ConnectResponse::AlreadyConnected
        } else if self.state != ServerState::Registration && !self.registered.contains_key(id) {
            ConnectResponse::NotRegistered
        } else {
            ConnectResponse::Connected(self.state)
        }
    }

    /// The coordinator after a player's session has asked to connect.
    pub open spec fn connect(self, id: PlayerId, handle: SessionHandle) -> LobbyModel {
        if self.connect_response(id) is Connected {
            LobbyModel { connected: self.connected.insert(id, handle), ..self }
        } else {
            self
        }
    }

    /// The coordinator after a player's session has gone: the entry leaves
    /// only if it is this session's.
    pub open spec fn disconnect(self, id: PlayerId, handle: SessionHandle) -> LobbyModel {
        if self.connected.contains_key(id) && self.connected[id] == handle {
            LobbyModel { connected: self.connected.remove(id), ..self }
        } else {
            self
        }
    }

    /// The answer to a registration.
    pub open spec fn register_response(self, id: PlayerId) -> RegisterResponse {
        if self.state != ServerState::Registration {
            RegisterResponse::GameAlreadyStarted
        } else if !self.registered.contains_key(id) && self.registered.len() >= self.max_players {
            RegisterResponse::TooManyRegistered { max_allowed: self.max_players }
        } else {
            RegisterResponse::Success
        }
    }

    /// The coordinator after a registration: a player who is not yet
    /// registered enters with the profile given, and the countdown starts
    /// anew where this makes the players enough.
    pub open spec fn register(self, id: PlayerId, data: JWTPlayerData) -> LobbyModel {
        if self.register_response(id) != RegisterResponse::Success {
            self
        } else {
            let registered = if self.registered.contains_key(id) {
                self.registered
            } else {
                self.registered.insert(id, data)
            };
            LobbyModel {
                registered,
                secs_left: if !self.enough_players() && registered.len() >= self.min_players {
                    self.lobby_wait_secs
                } else {
                    self.secs_left
                },
                ..self
            }
        }
    }

    /// The coordinator after a registration was taken back.
    pub open spec fn unregister(self, id: PlayerId) -> LobbyModel {
        if self.state != ServerState::Registration {
            self
        } else {
            LobbyModel { registered: self.registered.remove(id), ..self }
        }
    }

    /// The lobby's clock moves at this tick.
    pub open spec fn counting_down(self) -> bool {
        self.state == ServerState::Registration && self.enough_players()
    }

    /// The match starts at this tick.
    pub open spec fn starts_now(self) -> bool {
        self.counting_down() && self.secs_left <= 1
    }

    /// The coordinator after one second of the lobby's clock, where `order`
    /// is the order of play fixed if the match starts at this tick.
    pub open spec fn tick(self, order: Seq<PlayerId>) -> LobbyModel {
        if !self.counting_down() {
            self
        } else if self.starts_now() {
            LobbyModel {
                secs_left: 0,
                player_order: Some(order),
                state: ServerState::Initializing,
                ..self
            }
        } else {
            LobbyModel { secs_left: (self.secs_left - 1) as u32, ..self }
        }
    }

    /// The coordinator after the engine has set the match up.
    pub open spec fn init(self) -> LobbyModel {
        LobbyModel { state: ServerState::Running, ..self }
    }

    /// The coordinator after a match has ended: the lobby opens again, empty.
    pub open spec fn game_ended(self) -> LobbyModel {
        LobbyModel {
            registered: Map::empty(),
            player_order: None,
            state: ServerState::Registration,
            secs_left: self.lobby_wait_secs,
            ..self
        }
    }

    /// The coordinator after the engine has failed for good.
    pub open spec fn engine_crashed(self) -> LobbyModel {
        LobbyModel { state: ServerState::FatalError, player_order: None, ..self }
    }

    /// `update` is what the lobby has to tell about this coordinator.
    pub open spec fn announced_by(self, update: RegistrationUpdateEnum) -> bool {
        if self.enough_players() {
            update matches RegistrationUpdateEnum::GameStartingSoon {
                players,
                min_players_needed,
                max_players_allowed,
                seconds_left,
            } && players@ == self.registered && min_players_needed == self.min_players
                && max_players_allowed == self.max_players && seconds_left == self.secs_left
        } else {
            update matches RegistrationUpdateEnum::WaitingOnPlayers {
                players,
                min_players_needed,
                max_players_allowed,
            } && players@ == self.registered && min_players_needed == self.min_players
                && max_players_allowed == self.max_players
        }
    }

    /// `update` says that the match starts with this coordinator's players
    /// in its order of play.
    pub open spec fn started_by(self, update: RegistrationUpdateEnum) -> bool {
        update matches RegistrationUpdateEnum::GameStarting { players, player_order }
            && players@ == self.registered && self.player_order == Some(player_order@)
    }
}

/// `order` names each of `players` once and nobody else.
pub open spec fn is_order_of(order: Seq<PlayerId>, players: Set<PlayerId>) -> bool {
    order.no_duplicates() && order.to_set() == players
}

/// What one second of the lobby's clock brought.
#[derive(Debug)]
pub enum LobbyTick {
    /// The clock stood still: nothing to tell.
    Idle,
    /// The clock moved: every session is told how long is left.
    StartingSoon(RegistrationUpdate),
    /// The clock ran out: every session is told that the match starts. The
    /// engine driver was signalled with the order of play, and `signalled`
    /// says whether the signal was taken.
    StartGame { starting: GameStarting, player_order: Vec<PlayerId>, signalled: bool },
}

/// The coordinator: the one place that knows the server's state, who is
/// registered, who is connected, and where the lobby's countdown stands.
pub struct GameMediatorActor {
    server_state: ServerState,
    registered: HashMap<PlayerId, JWTPlayerData>,
    actors: HashMap<PlayerId, SessionHandle>,
    viewers: HashSet<SessionHandle>,
    player_order: Option<Vec<PlayerId>>,
    send_start_game: Sender<Vec<PlayerId>>,
    min_players_required: usize,
    max_players_allowed: usize,
    lobby_wait_secs: u32,
    secs_left: u32,
}

impl View for GameMediatorActor {
    type V = LobbyModel;

    closed spec fn view(&self) -> LobbyModel {
        LobbyModel {
            state: self.server_state,
            registered: self.registered@,
            connected: self.actors@,
            viewers: self.viewers@,
            player_order: match self.player_order {
                Some(order) => Some(order@),
                None => None,
            },
            min_players: self.min_players_required,
            max_players: self.max_players_allowed,
            lobby_wait_secs: self.lobby_wait_secs,
            secs_left: self.secs_left,
        }
    }
}

impl GameMediatorActor {
    /// A coordinator with an open, empty lobby, which signals the start of
    /// each match through `send_start_game`. A cap below the minimum is
    /// raised to the minimum.
    pub fn new(
        send_start_game: Sender<Vec<PlayerId>>,
        min_players_required: usize,
        max_players_allowed: usize,
        lobby_wait_secs: u32,
    ) -> (mediator: Self)
        requires
            lobby_wait_secs >= 1,
        ensures
            mediator@ == LobbyModel::initial(min_players_required, max_players_allowed, lobby_wait_secs),
            mediator@.wf(),
    {
        broadcast use vstd::std_specs::hash::group_hash_axioms;

        let max_players_allowed = if max_players_allowed < min_players_required {
            min_players_required
        } else {
            max_players_allowed
        };
        GameMediatorActor {
            server_state: ServerState::Registration,
            registered: HashMap::new(),
            actors: HashMap::new(),
            viewers: HashSet::new(),
            player_order: None,
            send_start_game,
            min_players_required,
            max_players_allowed,
            lobby_wait_secs,
            secs_left: lobby_wait_secs,
        }
    }

    /// What the lobby has to tell every session right now.
    fn registration_update(&self) -> (update: RegistrationUpdate)
        ensures
            self@.announced_by(update.0),
    {
        broadcast use vstd::std_specs::hash::group_hash_axioms;

        if self.registered.len() < self.min_players_required {
            RegistrationUpdate::waiting_on_players(
                self.registered.clone(),
                self.min_players_required,
                self.max_players_allowed,
            )
        } else {
            RegistrationUpdate::game_starting_soon(
                self.registered.clone(),
                self.min_players_required,
                self.max_players_allowed,
                self.secs_left,
            )
        }
    }

    /// Registers a player; the call may be repeated. Outside the lobby, and
    /// for one player more than the cap allows, nothing changes and nothing
    /// is told. Otherwise every session is told where the lobby stands.
    pub fn register(&mut self, request: Register) -> (outcome: (RegisterResponse, Option<RegistrationUpdate>))
        requires
            old(self)@.wf(),
        ensures
            final(self)@.wf(),
            final(self)@ == old(self)@.register(request.id, request.data),
            outcome.0 == old(self)@.register_response(request.id),
            outcome.0 != RegisterResponse::Success ==> outcome.1 is None,
            outcome.0 == RegisterResponse::Success ==> outcome.1 is Some && final(self)@.announced_by(
                outcome.1->Some_0.0,
            ),
    {
        broadcast use vstd::std_specs::hash::group_hash_axioms;

        if !self.server_state.can_change_registration() {
            return (RegisterResponse::GameAlreadyStarted, None);
        }
        let not_enough_before = self.registered.len() < self.min_players_required;
        if !self.registered.contains_key(&request.id) {
            if self.registered.len() >= self.max_players_allowed {
                return (
                    RegisterResponse::TooManyRegistered { max_allowed: self.max_players_allowed },
                    None,
                );
            }
            self.registered.insert(request.id, request.data);
        }
        if not_enough_before && self.registered.len() >= self.min_players_required {
            self.secs_left = self.lobby_wait_secs;
        }
        let update = self.registration_update();
        (RegisterResponse::Success, Some(update))
    }

    /// The registered players, each once, in the order in which the
    /// registration table hands them out.
    fn registered_ids(&self) -> (order: Vec<PlayerId>)
        ensures
            is_order_of(order@, self@.registered.dom()),
    {
        broadcast use vstd::std_specs::hash::group_hash_axioms;

        let mut order: Vec<PlayerId> = Vec::new();
        let keys = self.registered.keys();
        let ghost all = keys.remaining();
        for id in it: keys
            invariant
                it.seq() == all,
                order@.len() == it.index(),
                forall|j: int| 0 <= j < order@.len() ==> order@[j] == *all[j],
        {
            order.push(*id);
        }
        proof {
            assert(order@ =~= all.unref());
            assert(order@.no_duplicates()) by {
                assert forall|i: int, j: int| 0 <= i < order@.len() && 0 <= j < order@.len() && i != j implies order@[i] != order@[j] by {
                    assert(all[i] != all[j]);
                }
            }
        }
        order
    }

    /// Takes a player's registration back; the call may be repeated. Outside
    /// the lobby nothing changes, nothing is told and the answer is `false`.
    /// In the lobby the player is no longer registered, every session is
    /// told where the lobby stands, and the answer is `true`. The countdown
    /// is left where it is.
    pub fn unregister(&mut self, request: Unregister) -> (outcome: (bool, Option<RegistrationUpdate>))
        requires
            old(self)@.wf(),
        ensures
            final(self)@.wf(),
            final(self)@ == old(self)@.unregister(request.id),
            outcome.0 <==> old(self)@.state == ServerState::Registration,
            !outcome.0 ==> outcome.1 is None,
            outcome.0 ==> outcome.1 is Some && final(self)@.announced_by(outcome.1->Some_0.0),
    {
        broadcast use vstd::std_specs::hash::group_hash_axioms;

        if !self.server_state.can_change_registration() {
            return (false, None);
        }
        self.registered.remove(&request.id);
        proof {
            assert(self@.registered.dom() =~= old(self)@.registered.dom().remove(request.id));
            assert(self@.registered.dom().subset_of(old(self)@.registered.dom()));
            vstd::set_lib::lemma_len_subset(self@.registered.dom(), old(self)@.registered.dom());
        }
        let update = self.registration_update();
        (true, Some(update))
    }

    /// Takes a player's session in, unless the player is connected already,
    /// or the lobby is closed and the player is not registered.
    pub fn connect(&mut self, request: Connect) -> (response: ConnectResponse)
        requires
            old(self)@.wf(),
        ensures
            final(self)@.wf(),
            final(self)@ == old(self)@.connect(request.0, request.1),
            response == old(self)@.connect_response(request.0),
    {
        broadcast use vstd::std_specs::hash::group_hash_axioms;

        if self.actors.contains_key(&request.0) {
            return ConnectResponse::AlreadyConnected;
        }
        if !self.server_state.can_change_registration() && !self.registered.contains_key(&request.0) {
            return ConnectResponse::NotRegistered;
        }
        self.actors.insert(request.0, request.1);
        ConnectResponse::Connected(self.server_state)
    }

    /// Lets a player's session go. The player's entry leaves only if it is
    /// this session's: a session that closes late does not take away the
    /// one that came after it.
    pub fn disconnect(&mut self, request: Disconnect)
        requires
            old(self)@.wf(),
        ensures
            final(self)@.wf(),
            final(self)@ == old(self)@.disconnect(request.0, request.1),
    {
        broadcast use vstd::std_specs::hash::group_hash_axioms;

        let ours = match self.actors.get(&request.0) {
            Some(handle) => *handle == request.1,
            None => false,
        };
        if ours {
            self.actors.remove(&request.0);
        }
    }

    /// Takes a viewer's session in: always.
    pub fn connect_viewer(&mut self, request: ConnectViewer) -> (response: ConnectViewerResponse)
        requires
            old(self)@.wf(),
        ensures
            final(self)@.wf(),
            final(self)@ == (LobbyModel { viewers: old(self)@.viewers.insert(request.0), ..old(self)@ }),
            response.0 == old(self)@.state,
    {
        broadcast use vstd::std_specs::hash::group_hash_axioms;

        self.viewers.insert(request.0);
        ConnectViewerResponse(self.server_state)
    }

    /// Lets a viewer's session go.
    pub fn disconnect_viewer(&mut self, request: DisconnectViewer)
        requires
            old(self)@.wf(),
        ensures
            final(self)@.wf(),
            final(self)@ == (LobbyModel { viewers: old(self)@.viewers.remove(request.0), ..old(self)@ }),
    {
        broadcast use vstd::std_specs::hash::group_hash_axioms;

        self.viewers.remove(&request.0);
    }

    /// One second of the lobby's clock. Outside the lobby, and with too few
    /// players, the clock stands still. Otherwise it moves by one: either
    /// time is left, and every session is told how much, or the match
    /// starts: the order of play is fixed, registration closes, the engine
    /// driver is signalled with the order of play, and the caller gets what
    /// to tell every session. A driver that no longer listens does not stop
    /// the lobby.
    pub fn tick_registration_update(&mut self) -> (tick: LobbyTick)
        requires
            old(self)@.wf(),
        ensures
            final(self)@.wf(),
            !old(self)@.counting_down() ==> tick is Idle && final(self)@ == old(self)@,
            old(self)@.counting_down() && !old(self)@.starts_now() ==> tick is StartingSoon
                && final(self)@ == old(self)@.tick(Seq::empty()) && final(self)@.announced_by(
                tick->StartingSoon_0.0,
            ),
            old(self)@.starts_now() ==> tick is StartGame && final(self)@ == old(self)@.tick(
                tick->player_order@,
            ) && is_order_of(tick->player_order@, old(self)@.registered.dom())
                && final(self)@.started_by(tick->starting.0),
    {
        broadcast use vstd::std_specs::hash::group_hash_axioms;

        if !self.server_state.can_change_registration() {
            return LobbyTick::Idle;
        }
        if self.registered.len() < self.min_players_required {
            return LobbyTick::Idle;
        }
        self.secs_left = self.secs_left - 1;
        if self.secs_left == 0 {
            return self.start_game();
        }
        LobbyTick::StartingSoon(self.registration_update())
    }

    /// Fixes the order of play, closes registration and signals the engine
    /// driver.
    fn start_game(&mut self) -> (tick: LobbyTick)
        ensures
            tick is StartGame,
            is_order_of(tick->player_order@, old(self)@.registered.dom()),
            final(self)@ == (LobbyModel {
                player_order: Some(tick->player_order@),
                state: ServerState::Initializing,
                ..old(self)@
            }),
            final(self)@.started_by(tick->starting.0),
    {
        let player_order = self.registered_ids();
        self.player_order = Some(player_order.clone());
        self.server_state = ServerState::Initializing;
        let starting = GameStarting::new(self.registered.clone(), player_order.clone());
        let signalled = send(&self.send_start_game, player_order.clone());
        LobbyTick::StartGame { starting, player_order, signalled }
    }

    /// The engine has set the match up: the match is running. The message
    /// comes back for every session.
    pub fn handle_init(&mut self, init: Init) -> (broadcast: Init)
        requires
            old(self)@.wf(),
        ensures
            final(self)@.wf(),
            final(self)@ == old(self)@.init(),
            broadcast == init,
    {
        self.server_state = ServerState::Running;
        init
    }

    /// One tick has passed: nothing changes here. The message comes back
    /// for every session.
    pub fn handle_next_state(&mut self, next_state: NextState) -> (broadcast: NextState)
        requires
            old(self)@.wf(),
        ensures
            final(self)@ == old(self)@,
            broadcast == next_state,
    {
        next_state
    }

    /// A player was killed: nothing changes here. The message comes back
    /// for every session.
    pub fn handle_player_killed(&mut self, player_killed: PlayerKilled) -> (broadcast: PlayerKilled)
        requires
            old(self)@.wf(),
        ensures
            final(self)@ == old(self)@,
            broadcast == player_killed,
    {
        player_killed
    }

    /// The match is over: nobody is registered any more, the order of play
    /// is gone, the lobby is open and its countdown stands at the start.
    /// The message comes back for every session, which all stay open.
    pub fn handle_game_ended(&mut self, game_ended: GameEnded) -> (broadcast: GameEnded)
        requires
            old(self)@.wf(),
        ensures
            final(self)@.wf(),
            final(self)@ == old(self)@.game_ended(),
            broadcast == game_ended,
    {
        broadcast use vstd::std_specs::hash::group_hash_axioms;

        self.registered.clear();
        self.player_order = None;
        self.server_state = ServerState::Registration;
        self.secs_left = self.lobby_wait_secs;
        game_ended
    }

    /// The engine has failed for good: the server stays in `FatalError`
    /// and the order of play is gone. The message comes back for every
    /// player's and every viewer's session.
    pub fn handle_engine_crash(&mut self, crash: GameEngineCrash) -> (broadcast: GameEngineCrash)
        requires
            old(self)@.wf(),
        ensures
            final(self)@.wf(),
            final(self)@ == old(self)@.engine_crashed(),
    {
        self.server_state = ServerState::FatalError;
        self.player_order = None;
        crash
    }

    /// Who is registered, and the order of play if it is fixed.
    pub fn get_registered_players(&self, request: GetRegisteredPlayers) -> (response: GetRegisteredPlayersResponse)
        ensures
            response.players@ == self@.registered,
            response.player_order is Some <==> self@.player_order is Some,
            response.player_order is Some ==> response.player_order->Some_0@ == self@.player_order->Some_0,
    {
        let player_order = match &self.player_order {
            Some(order) => Some(order.clone()),
            None => None,
        };
        GetRegisteredPlayersResponse { players: self.registered.clone(), player_order }
    }

    /// The sessions of the connected players: where a message for every
    /// player goes.
    pub fn player_sessions(&self) -> (sessions: Vec<SessionHandle>)
        ensures
            sessions@.to_set() == self@.connected.values(),
            sessions@.len() == self@.connected.len(),
    {
        broadcast use vstd::std_specs::hash::group_hash_axioms;

        let mut sessions: Vec<SessionHandle> = Vec::new();
        let handles = self.actors.values();
        let ghost all = handles.remaining();
        for handle in it: handles
            invariant
                it.seq() == all,
                sessions@.len() == it.index(),
                forall|j: int| 0 <= j < sessions@.len() ==> sessions@[j] == *all[j],
        {
            sessions.push(*handle);
        }
        proof {
            assert(sessions@ =~= all.unref());
        }
        sessions
    }

    /// The sessions of the connected viewers, each once: where a message
    /// for every viewer goes.
    pub fn viewer_sessions(&self) -> (sessions: Vec<SessionHandle>)
        ensures
            sessions@.to_set() == self@.viewers,
            sessions@.len() == self@.viewers.len(),
    {
        broadcast use vstd::std_specs::hash::group_hash_axioms;

        let mut sessions: Vec<SessionHandle> = Vec::new();
        let handles = self.viewers.iter();
        let ghost all = handles.remaining();
        for handle in it: handles
            invariant
                it.seq() == all,
                sessions@.len() == it.index(),
                forall|j: int| 0 <= j < sessions@.len() ==> sessions@[j] == *all[j],
        {
            sessions.push(*handle);
        }
        proof {
            assert(sessions@ =~= all.unref());
        }
        sessions
    }

    /// The server's state.
    pub fn get_server_state(&self) -> (state: ServerState)
        ensures
            state == self@.state,
    {
        self.server_state
    }

    /// Where the lobby's countdown stands.
    pub fn get_secs_left(&self) -> (secs: u32)
        ensures
            secs == self@.secs_left,
    {
        self.secs_left
    }

    /// Whether a match is running.
    pub fn is_game_running(&self, request: IsGameRunning) -> (running: bool)
        ensures
            running <==> self@.state == ServerState::Running,
    {
        self.server_state.can_send_action()
    }

    /// Whether the player is registered.
    pub fn is_player_registered(&self, request: IsPlayerRegistered) -> (registered: bool)
        ensures
            registered == self@.registered.contains_key(request.0),
    {
        broadcast use vstd::std_specs::hash::group_hash_axioms;

        self.registered.contains_key(&request.0)
    }

    /// Whether a session of the player is connected.
    pub fn is_player_connected(&self, request: IsPlayerConnected) -> (connected: bool)
        ensures
            connected == self@.connected.contains_key(request.0),
    {
        broadcast use vstd::std_specs::hash::group_hash_axioms;

        self.actors.contains_key(&request.0)
    }
}

} // verus!
