use vstd::prelude::*;
use vstd::std_specs::iter::IteratorSpec;
use std::collections::{HashMap, HashSet};
use std::sync::mpsc::Receiver;
use crate::actors::shared_messages::{GameEnded, Init, NextState, PlayerKilled};
use crate::channel::drain;
use crate::player_id::{parse_uuid, uuid_value};
use crate::protocol::actions::{AttackAction, Direction, MoveAction, PlayerAction, PlayerActionEnum};
use crate::protocol::tagged_request::TaggedRequest;
use crate::protocol::game::{GameState, GameStateUpdate};
use crate::PlayerId;

verus! {

/// How often a call of the engine is tried before its failure is final.
pub const MAX_TRIES: usize = 5;

/// Where the engine driver stands.
#[derive(Debug, Clone, Copy, PartialEq, Eq, Structural)]
pub enum DriverPhase {
    /// No match: the driver waits for an order of play.
    Waiting,
    /// An order of play has come and the engine is setting the match up.
    Starting,
    /// A match is on and the driver waits for the next tick.
    Running,
    /// A tick has begun and the engine is computing the next state.
    Updating,
}

/// What the engine driver is, as plain mathematics: every contract of
/// [`GamePlayer`] is stated over this.
pub struct MatchModel {
    pub phase: DriverPhase,
    pub player_order: Seq<PlayerId>,
    pub remaining: Set<PlayerId>,
    pub ticks_per_game: u32,
    pub ticks_left: u32,
    pub seconds_per_tick: u32,
}

impl MatchModel {
    /// What always holds of a driver: who remains is among those who play,
    /// a match has at least one tick, a match that is being set up has all
    /// of its ticks left, and between two ticks of a match there is a tick
    /// left.
    pub open spec fn wf(self) -> bool {
        &&& self.remaining.finite()
        &&& self.remaining.subset_of(self.player_order.to_set())
        &&& self.ticks_per_game >= 1
        &&& self.ticks_left <= self.ticks_per_game
        &&& (self.phase == DriverPhase::Starting ==> self.ticks_left == self.ticks_per_game)
        &&& (self.phase == DriverPhase::Running ==> self.ticks_left >= 1)
    }

    /// A driver that has just been made.
    pub open spec fn initial(ticks_per_game: u32, seconds_per_tick: u32) -> MatchModel {
        MatchModel {
            phase: DriverPhase::Waiting,
            player_order: Seq::empty(),
            remaining: Set::empty(),
            ticks_per_game,
            ticks_left: 0,
            seconds_per_tick,
        }
    }

    /// The driver after an order of play has come: everybody in it remains
    /// and every tick is left.
    pub open spec fn init_game(self, player_order: Seq<PlayerId>) -> MatchModel {
        MatchModel {
            phase: DriverPhase::Starting,
            player_order,
            remaining: player_order.to_set(),
            ticks_left: self.ticks_per_game,
            ..self
        }
    }

    /// The driver after the engine has set the match up.
    pub open spec fn initialized(self) -> MatchModel {
        if self.phase == DriverPhase::Starting {
            MatchModel { phase: DriverPhase::Running, ..self }
        } else {
            self
        }
    }

    /// The driver after the engine has declared a player killed.
    pub open spec fn player_killed(self, id: PlayerId) -> MatchModel {
        MatchModel { remaining: self.remaining.remove(id), ..self }
    }

    /// The driver after a tick has begun.
    pub open spec fn begin_tick(self) -> MatchModel {
        if self.phase == DriverPhase::Running {
            MatchModel { phase: DriverPhase::Updating, ticks_left: (self.ticks_left - 1) as u32, ..self }
        } else {
            self
        }
    }

    /// The match ends with the tick that has begun: no tick is left, or at
    /// most one player remains.
    pub open spec fn match_over(self) -> bool {
        self.ticks_left == 0 || self.remaining.len() <= 1
    }

    /// The driver after the engine has computed the next state.
    pub open spec fn end_tick(self) -> MatchModel {
        if self.phase != DriverPhase::Updating {
            self
        } else if self.match_over() {
            MatchModel { phase: DriverPhase::Waiting, ..self }
        } else {
            MatchModel { phase: DriverPhase::Running, ..self }
        }
    }

    /// The driver after the engine has failed for good: it waits, and no
    /// match is on.
    pub open spec fn abandon(self) -> MatchModel {
        MatchModel { phase: DriverPhase::Waiting, ..self }
    }
}

/// The player `id` has an entry in `pending`.
pub open spec fn submitted(pending: Seq<(PlayerId, PlayerAction)>, id: PlayerId) -> bool {
    exists|i: int| 0 <= i < pending.len() && (#[trigger] pending[i]).0 == id
}

/// The entry at `i` is the first of its player in `pending`.
pub open spec fn is_first(pending: Seq<(PlayerId, PlayerAction)>, i: int) -> bool {
    forall|j: int| 0 <= j < i ==> (#[trigger] pending[j]).0 != pending[i].0
}

/// `actions` holds, for each player of `remaining` with an entry in
/// `pending`, the first of the player's entries, and nothing else.
pub open spec fn actions_of_tick(
    actions: Map<PlayerId, PlayerAction>,
    pending: Seq<(PlayerId, PlayerAction)>,
    remaining: Set<PlayerId>,
) -> bool {
    &&& forall|id: PlayerId| #[trigger]
        actions.contains_key(id) <==> remaining.contains(id) && submitted(pending, id)
    &&& forall|i: int|
        0 <= i < pending.len() && remaining.contains((#[trigger] pending[i]).0) && is_first(pending, i)
            ==> actions[pending[i].0] == pending[i].1
}

/// What the driver tells the coordinator at the end of a tick.
#[derive(Debug)]
pub enum TickUpdate {
    /// The match goes on.
    Next(NextState),
    /// The match is over.
    Ended(GameEnded),
}

/// Whether a failed call of the engine is tried once more, after `tries`
/// failures in a row with `max_tries` allowed: as long as fewer have failed
/// than are allowed.
pub fn should_retry(tries: usize, max_tries: usize) -> (again: bool)
    ensures
        again <==> tries < max_tries,
{
    tries < max_tries
}

/// How often a call is made at most when `max_tries` are allowed: that
/// often, and once at least.
pub open spec fn tries_allowed(max_tries: usize) -> int {
    if max_tries == 0 {
        1
    } else {
        max_tries as int
    }
}

/// Calls `func` until it succeeds, `max_tries` times at most and once at
/// least, and returns what its last call returned together with the number
/// of calls made. A failure is returned only when no try is left.
pub fn trap_errors_counted<F, R, E>(max_tries: usize, func: F) -> (outcome: (Result<R, E>, usize)) where
    F: Fn() -> Result<R, E>,
    requires
        call_requires(func, ()),
    ensures
        call_ensures(func, (), outcome.0),
        1 <= outcome.1 <= tries_allowed(max_tries),
        outcome.0 is Err ==> outcome.1 == tries_allowed(max_tries),
{
    let mut tries: usize = 0;
    loop
        invariant
            call_requires(func, ()),
            tries < max_tries || tries == 0,
        decreases max_tries - tries,
    {
        match func() {
            Ok(value) => {
                return (Ok(value), tries + 1);
            },
            Err(error) => {
                tries = tries + 1;
                if !should_retry(tries, max_tries) {
                    return (Err(error), tries);
                }
            },
        }
    }
}

/// Calls `func` until it succeeds, `max_tries` times at most and once at
/// least, and returns what its last call returned.
pub fn trap_errors<F, R, E>(max_tries: usize, func: F) -> (result: Result<R, E>) where F: Fn() -> Result<R, E>
    requires
        call_requires(func, ()),
    ensures
        call_ensures(func, (), result),
{
    trap_errors_counted(max_tries, func).0
}

/// The directions, for whoever picks one.
pub fn directions() -> (all: Vec<Direction>)
    ensures
        all@ == seq![Direction::Up, Direction::Down, Direction::Left, Direction::Right],
{
    let mut all: Vec<Direction> = Vec::new();
    all.push(Direction::Up);
    all.push(Direction::Down);
    all.push(Direction::Left);
    all.push(Direction::Right);
    all
}

/// The actions to pick from when a player's action is drawn by lot, each
/// with its weight: a move and an attack in the given direction, five
/// each, and dropping the weapon, two.
pub fn weighted_actions(direction: Direction) -> (choices: Vec<(PlayerAction, u32)>)
    ensures
        choices@.len() == 3,
        choices@[0] == (
            TaggedRequest { tag: None::<String>, data: PlayerActionEnum::Move(MoveAction { direction }) },
            5u32,
        ),
        choices@[1] == (
            TaggedRequest { tag: None::<String>, data: PlayerActionEnum::Attack(AttackAction { direction }) },
            5u32,
        ),
        choices@[2] == (TaggedRequest { tag: None::<String>, data: PlayerActionEnum::DropWeapon }, 2u32),
{
    let mut choices: Vec<(PlayerAction, u32)> = Vec::new();
    choices.push((TaggedRequest::new(PlayerActionEnum::Move(MoveAction { direction })), 5));
    choices.push((TaggedRequest::new(PlayerActionEnum::Attack(AttackAction { direction })), 5));
    choices.push((TaggedRequest::new(PlayerActionEnum::DropWeapon), 2));
    choices
}

/// The engine driver's own state: who plays, who remains, and how many
/// ticks are left. The scripted engine is called by whoever owns this
/// value, between the calls of its methods.
pub struct GamePlayer {
    phase: DriverPhase,
    player_order: Vec<PlayerId>,
    players_remaining: HashSet<PlayerId>,
    ticks_per_game: u32,
    ticks_left: u32,
    seconds_per_tick: u32,
}

impl View for GamePlayer {
    type V = MatchModel;

    closed spec fn view(&self) -> MatchModel {
        MatchModel {
            phase: self.phase,
            player_order: self.player_order@,
            remaining: self.players_remaining@,
            ticks_per_game: self.ticks_per_game,
            ticks_left: self.ticks_left,
            seconds_per_tick: self.seconds_per_tick,
        }
    }
}

impl GamePlayer {
    /// A driver that waits for its first match.
    pub fn new(ticks_per_game: u32, seconds_per_tick: u32) -> (player: Self)
        requires
            ticks_per_game >= 1,
        ensures
            player@ == MatchModel::initial(ticks_per_game, seconds_per_tick),
            player@.wf(),
    {
        broadcast use vstd::std_specs::hash::group_hash_axioms;

        let player = GamePlayer {
            phase: DriverPhase::Waiting,
            player_order: Vec::new(),
            players_remaining: HashSet::new(),
            ticks_per_game,
            ticks_left: 0,
            seconds_per_tick,
        };
        assert(player@.remaining.subset_of(player@.player_order.to_set()));
        player
    }

    /// Takes the order of play of a new match: everybody in it remains and
    /// every tick is left. The engine is to set the match up next.
    pub fn init_game(&mut self, player_order: &Vec<PlayerId>)
        requires
            old(self)@.wf(),
        ensures
            final(self)@.wf(),
            final(self)@ == old(self)@.init_game(player_order@),
    {
        broadcast use vstd::std_specs::hash::group_hash_axioms;

        let mut remaining: HashSet<PlayerId> = HashSet::new();
        let mut i: usize = 0;
        while i < player_order.len()
            invariant
                i <= player_order@.len(),
                remaining@ =~= player_order@.take(i as int).to_set(),
            decreases player_order@.len() - i,
        {
            remaining.insert(player_order[i]);
            proof {
                let before = player_order@.take(i as int);
                let after = player_order@.take(i + 1);
                assert(after =~= before.push(player_order@[i as int]));
                assert forall|id: PlayerId| after.to_set().contains(id) <==> before.to_set().insert(
                    player_order@[i as int],
                ).contains(id) by {
                    if after.contains(id) {
                        let k = choose|k: int| 0 <= k < after.len() && after[k] == id;
                        if k < i {
                            assert(before[k] == id);
                        }
                    }
                    if before.contains(id) {
                        let k = choose|k: int| 0 <= k < before.len() && before[k] == id;
                        assert(after[k] == id);
                    }
                    assert(after[i as int] == player_order@[i as int]);
                }
            }
            i = i + 1;
        }
        assert(player_order@.take(i as int) =~= player_order@);
        self.player_order = player_order.clone();
        self.ticks_left = self.ticks_per_game;
        self.players_remaining = remaining;
        self.phase = DriverPhase::Starting;
    }

    /// The engine has set the match up: hands out what the coordinator is
    /// told, with the state of the game that the engine gave. `None`, and
    /// nothing changes, where no match was being set up.
    pub fn game_initialized(&mut self, game_state: GameState) -> (init: Option<Init>)
        requires
            old(self)@.wf(),
        ensures
            final(self)@.wf(),
            final(self)@ == old(self)@.initialized(),
            init is Some <==> old(self)@.phase == DriverPhase::Starting,
            init is Some ==> init->Some_0.0 == (GameStateUpdate::Init {
                game_state,
                ticks_left: old(self)@.ticks_left,
                seconds_per_tick: old(self)@.seconds_per_tick,
            }),
    {
        if self.phase != DriverPhase::Starting {
            return None;
        }
        self.phase = DriverPhase::Running;
        Some(Init::new(game_state, self.ticks_left, self.seconds_per_tick))
    }

    /// The engine has declared a player killed: the player remains no
    /// longer. The call may be repeated, and the coordinator is told each
    /// time.
    pub fn notify_player_killed(&mut self, id: PlayerId) -> (killed: PlayerKilled)
        requires
            old(self)@.wf(),
        ensures
            final(self)@.wf(),
            final(self)@ == old(self)@.player_killed(id),
            killed.id() == id,
            killed.payload() == (GameStateUpdate::PlayerKilled { id }),
    {
        broadcast use vstd::std_specs::hash::group_hash_axioms;

        self.players_remaining.remove(&id);
        PlayerKilled::new(id)
    }

    /// The engine has declared killed the player whose id is written in
    /// `uuid`. A text that is no UUID changes nothing and gives `None`.
    pub fn notify_player_killed_text(&mut self, uuid: &str) -> (killed: Option<PlayerKilled>)
        requires
            old(self)@.wf(),
        ensures
            final(self)@.wf(),
            match uuid_value(uuid@) {
                Some(id) => killed is Some && killed->Some_0.id() == id && killed->Some_0.payload() == (
                GameStateUpdate::PlayerKilled { id }) && final(self)@ == old(self)@.player_killed(id),
                None => killed is None && final(self)@ == old(self)@,
            },
    {
        match parse_uuid(uuid) {
            Some(id) => Some(self.notify_player_killed(id)),
            None => None,
        }
    }

    /// Everybody who plays, in the order of play.
    pub fn get_player_order(&self) -> (order: Vec<PlayerId>)
        ensures
            order@ == self@.player_order,
    {
        self.player_order.clone()
    }

    /// Everybody who remains, each once.
    pub fn get_players_remaining(&self) -> (remaining: Vec<PlayerId>)
        ensures
            remaining@.to_set() == self@.remaining,
            remaining@.no_duplicates(),
    {
        broadcast use vstd::std_specs::hash::group_hash_axioms;

        let mut remaining: Vec<PlayerId> = Vec::new();
        let ids = self.players_remaining.iter();
        let ghost all = ids.remaining();
        for id in it: ids
            invariant
                it.seq() == all,
                remaining@.len() == it.index(),
                forall|j: int| 0 <= j < remaining@.len() ==> remaining@[j] == *all[j],
        {
            remaining.push(*id);
        }
        proof {
            assert(remaining@ =~= all.unref());
            assert forall|i: int, j: int|
                0 <= i < remaining@.len() && 0 <= j < remaining@.len() && i != j implies remaining@[i]
                != remaining@[j] by {
                assert(all[i] != all[j]);
            }
        }
        remaining
    }

    /// Whether the player remains.
    pub fn is_remaining(&self, id: PlayerId) -> (remains: bool)
        ensures
            remains == self@.remaining.contains(id),
    {
        broadcast use vstd::std_specs::hash::group_hash_axioms;

        self.players_remaining.contains(&id)
    }

    /// The ticks that are left, and the ticks of a whole match.
    pub fn get_ticks_left(&self) -> (ticks: (u32, u32))
        ensures
            ticks == (self@.ticks_left, self@.ticks_per_game),
    {
        (self.ticks_left, self.ticks_per_game)
    }

    /// The seconds between two ticks.
    pub fn get_seconds_per_tick(&self) -> (seconds: u32)
        ensures
            seconds == self@.seconds_per_tick,
    {
        self.seconds_per_tick
    }

    /// Where the driver stands.
    pub fn get_phase(&self) -> (phase: DriverPhase)
        ensures
            phase == self@.phase,
    {
        self.phase
    }

    /// A round is running while a tick is left and more than one player
    /// remains.
    pub fn is_round_running(&self) -> (running: bool)
        ensures
            running <==> self@.ticks_left > 0 && self@.remaining.len() > 1,
    {
        broadcast use vstd::std_specs::hash::group_hash_axioms;

        self.ticks_left > 0 && self.players_remaining.len() > 1
    }

    /// Begins a tick between two ticks of a match: one tick less is left,
    /// and of what the players submitted since the last tick, each player
    /// who remains gets the first entry; the rest is dropped. The engine is
    /// to compute the next state from these actions. `None`, and nothing
    /// changes, where no match is waiting for a tick.
    pub fn begin_tick(&mut self, pending: Vec<(PlayerId, PlayerAction)>) -> (actions: Option<
        HashMap<PlayerId, PlayerAction>,
    >)
        requires
            old(self)@.wf(),
        ensures
            final(self)@.wf(),
            final(self)@ == old(self)@.begin_tick(),
            actions is Some <==> old(self)@.phase == DriverPhase::Running,
            actions is Some ==> actions_of_tick(actions->Some_0@, pending@, old(self)@.remaining),
    {
        if self.phase != DriverPhase::Running {
            return None;
        }
        self.ticks_left = self.ticks_left - 1;
        self.phase = DriverPhase::Updating;
        Some(self.collect_actions(pending))
    }

    /// Begins a tick as [`GamePlayer::begin_tick`] does, with what waits in
    /// the channel of the players' actions: the channel is emptied, without
    /// waiting for more. A channel is looked into only where a match is
    /// waiting for a tick.
    pub fn begin_tick_from(&mut self, receiver: &Receiver<(PlayerId, PlayerAction)>) -> (actions: Option<
        HashMap<PlayerId, PlayerAction>,
    >)
        requires
            old(self)@.wf(),
        ensures
            final(self)@.wf(),
            final(self)@ == old(self)@.begin_tick(),
            actions is Some <==> old(self)@.phase == DriverPhase::Running,
            actions is Some ==> exists|pending: Seq<(PlayerId, PlayerAction)>|
                actions_of_tick(actions->Some_0@, pending, old(self)@.remaining),
    {
        if self.phase != DriverPhase::Running {
            return None;
        }
        let pending = drain(receiver);
        let ghost taken = pending@;
        let actions = self.begin_tick(pending);
        assert(actions_of_tick(actions->Some_0@, taken, old(self)@.remaining));
        actions
    }

    /// Of the entries in `pending`, the first of each player who remains.
    pub fn collect_actions(&self, pending: Vec<(PlayerId, PlayerAction)>) -> (actions: HashMap<
        PlayerId,
        PlayerAction,
    >)
        ensures
            actions_of_tick(actions@, pending@, self@.remaining),
    {
        broadcast use vstd::std_specs::hash::group_hash_axioms;

        let mut pending = pending;
        let ghost all = pending@;
        let ghost remaining = self@.remaining;
        let mut actions: HashMap<PlayerId, PlayerAction> = HashMap::new();
        while pending.len() > 0
            invariant
                remaining == self@.remaining,
                pending@.len() <= all.len(),
                pending@ == all.take(pending@.len() as int),
                forall|id: PlayerId| #[trigger]
                    actions@.contains_key(id) <==> remaining.contains(id) && exists|i: int|
                        pending@.len() <= i < all.len() && (#[trigger] all[i]).0 == id,
                forall|i: int|
                    pending@.len() <= i < all.len() && remaining.contains((#[trigger] all[i]).0) && (
                    forall|j: int| pending@.len() <= j < i ==> (#[trigger] all[j]).0 != all[i].0)
                        ==> actions@[all[i].0] == all[i].1,
            decreases pending@.len(),
        {
            let ghost k = pending@.len() - 1;
            let ghost before = actions@;
            let entry = pending.pop();
            match entry {
                Some((id, action)) => {
                    assert(all[k] == (id, action));
                    if self.players_remaining.contains(&id) {
                        actions.insert(id, action);
                        proof {
                            assert forall|i: int|
                                k <= i < all.len() && remaining.contains((#[trigger] all[i]).0) && (
                                forall|j: int| k <= j < i ==> (#[trigger] all[j]).0 != all[i].0)
                                implies actions@[all[i].0] == all[i].1 by {
                                if i > k {
                                    assert(all[k].0 != all[i].0);
                                    assert(forall|j: int| k + 1 <= j < i ==> (#[trigger] all[j]).0 != all[i].0);
                                    assert(before[all[i].0] == all[i].1);
                                }
                            }
                            assert forall|other: PlayerId| #[trigger]
                                actions@.contains_key(other) <==> remaining.contains(other) && exists|
                                    i: int,
                                | k <= i < all.len() && (#[trigger] all[i]).0 == other by {
                                if other == id {
                                    assert(all[k].0 == other);
                                } else {
                                    if before.contains_key(other) {
                                        let i = choose|i: int| k + 1 <= i < all.len() && (#[trigger] all[i]).0 == other;
                                        assert(k <= i < all.len() && all[i].0 == other);
                                    }
                                    if remaining.contains(other) && exists|i: int| k <= i < all.len() && (#[trigger] all[i]).0 == other {
                                        let i = choose|i: int| k <= i < all.len() && (#[trigger] all[i]).0 == other;
                                        assert(i != k);
                                        assert(k + 1 <= i < all.len() && all[i].0 == other);
                                    }
                                }
                            }
                        }
                    } else {
                        proof {
                            assert forall|i: int|
                                k <= i < all.len() && remaining.contains((#[trigger] all[i]).0) && (
                                forall|j: int| k <= j < i ==> (#[trigger] all[j]).0 != all[i].0)
                                implies actions@[all[i].0] == all[i].1 by {
                                assert(i != k);
                                assert(forall|j: int| k + 1 <= j < i ==> (#[trigger] all[j]).0 != all[i].0);
                            }
                            assert forall|other: PlayerId| #[trigger]
                                actions@.contains_key(other) <==> remaining.contains(other) && exists|
                                    i: int,
                                | k <= i < all.len() && (#[trigger] all[i]).0 == other by {
                                if before.contains_key(other) {
                                    let i = choose|i: int| k + 1 <= i < all.len() && (#[trigger] all[i]).0 == other;
                                    assert(k <= i < all.len() && all[i].0 == other);
                                }
                                if remaining.contains(other) && exists|i: int| k <= i < all.len() && (#[trigger] all[i]).0 == other {
                                    let i = choose|i: int| k <= i < all.len() && (#[trigger] all[i]).0 == other;
                                    assert(i != k);
                                    assert(k + 1 <= i < all.len() && all[i].0 == other);
                                }
                            }
                        }
                    }
                    assert(pending@ == all.take(k));
                },
                None => {},
            }
        }
        actions
    }

    /// Ends the tick that has begun, with the state of the game that the
    /// engine computed and the actions it was given. Where no tick is left,
    /// or at most one player remains, the match is over: the coordinator is
    /// told who remains, and the driver waits for the next order of play.
    /// Otherwise the coordinator is told the next state and the driver
    /// waits for the next tick. `None`, and nothing changes, where no tick
    /// had begun.
    pub fn end_tick(&mut self, game_state: GameState, actions: HashMap<PlayerId, PlayerAction>) -> (update:
        Option<TickUpdate>)
        requires
            old(self)@.wf(),
        ensures
            final(self)@.wf(),
            final(self)@ == old(self)@.end_tick(),
            update is Some <==> old(self)@.phase == DriverPhase::Updating,
            update is Some && old(self)@.match_over() ==> update->Some_0 is Ended && (
            update->Some_0->Ended_0.0 matches GameStateUpdate::GameEnded {
                winners,
                game_state: state,
                actions_taken,
            } && winners@.to_set() == old(self)@.remaining && winners@.no_duplicates() && state
                == game_state && actions_taken == actions),
            update is Some && !old(self)@.match_over() ==> update->Some_0 is Next
                && update->Some_0->Next_0.0 == (GameStateUpdate::NextState {
                game_state,
                actions_taken: actions,
                ticks_left: old(self)@.ticks_left,
                seconds_per_tick: old(self)@.seconds_per_tick,
            }),
    {
        broadcast use vstd::std_specs::hash::group_hash_axioms;

        if self.phase != DriverPhase::Updating {
            return None;
        }
        if self.ticks_left == 0 || self.players_remaining.len() <= 1 {
            self.phase = DriverPhase::Waiting;
            let winners = self.get_players_remaining();
            Some(TickUpdate::Ended(GameEnded::new(winners, game_state, actions)))
        } else {
            self.phase = DriverPhase::Running;
            Some(
                TickUpdate::Next(
                    NextState::new(game_state, actions, self.ticks_left, self.seconds_per_tick),
                ),
            )
        }
    }

    /// The engine has failed for good: the match, if one was on, is given
    /// up, and the driver waits.
    pub fn abandon(&mut self)
        requires
            old(self)@.wf(),
        ensures
            final(self)@.wf(),
            final(self)@ == old(self)@.abandon(),
    {
        self.phase = DriverPhase::Waiting;
    }
}

} // verus!
