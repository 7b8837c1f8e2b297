//! What holds of the engine driver whatever happens to it, proved over
//! [`MatchModel`].
use vstd::prelude::*;
use crate::game::game_player::{actions_of_tick, is_first, submitted, DriverPhase, MatchModel};
use crate::protocol::actions::PlayerAction;
use crate::PlayerId;

verus! {

/// One thing that happens to the engine driver.
pub enum MatchStep {
    /// An order of play has come from the coordinator, which has told
    /// every session that the match starts.
    StartMatch(Seq<PlayerId>),
    /// The engine has set the match up.
    Initialized,
    /// The engine has declared a player killed.
    PlayerKilled(PlayerId),
    /// A tick has begun.
    BeginTick,
    /// The engine has computed the next state.
    EndTick,
    /// The engine has failed for good.
    Abandon,
}

/// What a session is sent in the course of a match.
#[derive(PartialEq, Eq, Structural)]
pub enum Broadcast {
    GameStarting,
    Init,
    NextState,
    PlayerKilled,
    GameEnded,
    EngineCrashed,
}

/// The driver after one step.
pub open spec fn after_step(driver: MatchModel, step: MatchStep) -> MatchModel {
    match step {
        MatchStep::StartMatch(order) => driver.init_game(order),
        MatchStep::Initialized => driver.initialized(),
        MatchStep::PlayerKilled(id) => driver.player_killed(id),
        MatchStep::BeginTick => driver.begin_tick(),
        MatchStep::EndTick => driver.end_tick(),
        MatchStep::Abandon => driver.abandon(),
    }
}

/// What every session is sent because of one step, if anything.
pub open spec fn sent_at(driver: MatchModel, step: MatchStep) -> Option<Broadcast> {
    match step {
        MatchStep::StartMatch(_) => Some(Broadcast::GameStarting),
        MatchStep::Initialized => if driver.phase == DriverPhase::Starting {
            Some(Broadcast::Init)
        } else {
            None
        },
        MatchStep::PlayerKilled(_) => Some(Broadcast::PlayerKilled),
        MatchStep::BeginTick => None,
        MatchStep::EndTick => if driver.phase != DriverPhase::Updating {
            None
        } else if driver.match_over() {
            Some(Broadcast::GameEnded)
        } else {
            Some(Broadcast::NextState)
        },
        MatchStep::Abandon => Some(Broadcast::EngineCrashed),
    }
}

/// The driver after a run of steps, taken from first to last.
pub open spec fn after_steps(driver: MatchModel, steps: Seq<MatchStep>) -> MatchModel
    decreases steps.len(),
{
    if steps.len() == 0 {
        driver
    } else {
        after_step(after_steps(driver, steps.drop_last()), steps.last())
    }
}

/// What every session is sent in a run of steps, in the order of sending.
pub open spec fn sent_in(driver: MatchModel, steps: Seq<MatchStep>) -> Seq<Broadcast>
    decreases steps.len(),
{
    if steps.len() == 0 {
        Seq::empty()
    } else {
        let earlier = sent_in(driver, steps.drop_last());
        match sent_at(after_steps(driver, steps.drop_last()), steps.last()) {
            Some(message) => earlier.push(message),
            None => earlier,
        }
    }
}

/// No step is the start of a match.
pub open spec fn within_one_match(steps: Seq<MatchStep>) -> bool {
    forall|i: int| 0 <= i < steps.len() ==> !(#[trigger] steps[i] is StartMatch)
}

/// Within a match the players who remain never become more: whoever
/// remains after a run of steps remained before it.
pub proof fn remaining_never_grows(driver: MatchModel, steps: Seq<MatchStep>)
    requires
        driver.wf(),
        within_one_match(steps),
    ensures
        after_steps(driver, steps).wf(),
        after_steps(driver, steps).remaining.subset_of(driver.remaining),
        after_steps(driver, steps).remaining.len() <= driver.remaining.len(),
        after_steps(driver, steps).player_order == driver.player_order,
    decreases steps.len(),
{
    if steps.len() > 0 {
        assert(within_one_match(steps.drop_last())) by {
            assert forall|i: int| 0 <= i < steps.drop_last().len() implies !(
            #[trigger] steps.drop_last()[i] is StartMatch) by {
                assert(steps.drop_last()[i] == steps[i]);
            }
        }
        remaining_never_grows(driver, steps.drop_last());
        assert(!(steps[steps.len() - 1] is StartMatch));
        let before = after_steps(driver, steps.drop_last());
        vstd::set_lib::lemma_len_subset(after_step(before, steps.last()).remaining, before.remaining);
    } else {
        assert(after_steps(driver, steps) == driver);
    }
}

/// Every run of steps keeps the driver in order: who remains is among
/// those who play.
pub proof fn remaining_are_players(driver: MatchModel, steps: Seq<MatchStep>)
    requires
        driver.wf(),
    ensures
        after_steps(driver, steps).wf(),
        after_steps(driver, steps).remaining.subset_of(after_steps(driver, steps).player_order.to_set()),
    decreases steps.len(),
{
    if steps.len() > 0 {
        remaining_are_players(driver, steps.drop_last());
        let before = after_steps(driver, steps.drop_last());
        match steps.last() {
            MatchStep::StartMatch(order) => {
                assert(order.to_set().finite());
            },
            _ => {},
        }
    }
}

/// Where a run of messages stands: no match was announced; a match was
/// announced; a match is on.
pub enum Stage {
    Idle,
    Announced,
    Playing,
}

/// Where the sessions stand after a run of messages; `None` where a
/// message came out of turn: an `Init` that no `GameStarting` announced,
/// or a `NextState` or `GameEnded` with no `Init` before it in its match.
pub open spec fn stage_after(sent: Seq<Broadcast>) -> Option<Stage>
    decreases sent.len(),
{
    if sent.len() == 0 {
        Some(Stage::Idle)
    } else {
        match (stage_after(sent.drop_last()), sent.last()) {
            (None, _) => None,
            (Some(_), Broadcast::GameStarting) => Some(Stage::Announced),
            (Some(Stage::Announced), Broadcast::Init) => Some(Stage::Playing),
            (Some(_), Broadcast::Init) => None,
            (Some(Stage::Playing), Broadcast::NextState) => Some(Stage::Playing),
            (Some(_), Broadcast::NextState) => None,
            (Some(Stage::Playing), Broadcast::GameEnded) => Some(Stage::Idle),
            (Some(_), Broadcast::GameEnded) => None,
            (Some(stage), Broadcast::PlayerKilled) => Some(stage),
            (Some(_), Broadcast::EngineCrashed) => Some(Stage::Idle),
        }
    }
}

/// The stage that goes with a phase of the driver.
pub open spec fn stage_of(phase: DriverPhase) -> Stage {
    match phase {
        DriverPhase::Waiting => Stage::Idle,
        DriverPhase::Starting => Stage::Announced,
        DriverPhase::Running | DriverPhase::Updating => Stage::Playing,
    }
}

/// Whatever happens to a driver that waits, no message is sent out of
/// turn: every `Init` follows the `GameStarting` of its match, and every
/// `NextState` and `GameEnded` follows the `Init` of its match.
pub proof fn messages_come_in_turn(driver: MatchModel, steps: Seq<MatchStep>)
    requires
        driver.phase == DriverPhase::Waiting,
    ensures
        stage_after(sent_in(driver, steps)) == Some(stage_of(after_steps(driver, steps).phase)),
    decreases steps.len(),
{
    if steps.len() > 0 {
        messages_come_in_turn(driver, steps.drop_last());
        let before = after_steps(driver, steps.drop_last());
        let earlier = sent_in(driver, steps.drop_last());
        match sent_at(before, steps.last()) {
            Some(message) => {
                assert(earlier.push(message).drop_last() =~= earlier);
                assert(earlier.push(message).last() == message);
            },
            None => {},
        }
    }
}

/// `sent[from]` is the `Init` of a match, and from there up to `to` the
/// match goes on: nothing but `NextState` and `PlayerKilled` was sent.
pub open spec fn match_on(sent: Seq<Broadcast>, from: int, to: int) -> bool {
    &&& 0 <= from < to <= sent.len()
    &&& sent[from] == Broadcast::Init
    &&& forall|j: int|
        from < j < to ==> #[trigger] sent[j] == Broadcast::NextState || sent[j] == Broadcast::PlayerKilled
}

/// `sent[from]` is the `GameStarting` of a match, and from there up to
/// `to` the match is being set up: nothing but `PlayerKilled` was sent.
pub open spec fn match_announced(sent: Seq<Broadcast>, from: int, to: int) -> bool {
    &&& 0 <= from < to <= sent.len()
    &&& sent[from] == Broadcast::GameStarting
    &&& forall|j: int| from < j < to ==> #[trigger] sent[j] == Broadcast::PlayerKilled
}

/// In a run of messages in which none came out of turn, every `NextState`
/// and every `GameEnded` follows the `Init` of its own match, with no end
/// of a match between them, and every `Init` follows the `GameStarting` of
/// its own match.
pub proof fn in_turn_means_preceded(sent: Seq<Broadcast>, at: int)
    requires
        stage_after(sent) is Some,
        0 <= at < sent.len(),
    ensures
        sent[at] == Broadcast::NextState || sent[at] == Broadcast::GameEnded ==> exists|i: int|
            match_on(sent, i, at),
        sent[at] == Broadcast::Init ==> exists|i: int| match_announced(sent, i, at),
    decreases sent.len(),
{
    let earlier = sent.drop_last();
    if at < sent.len() - 1 {
        in_turn_means_preceded(earlier, at);
        assert(earlier[at] == sent[at]);
        if sent[at] == Broadcast::NextState || sent[at] == Broadcast::GameEnded {
            let i = choose|i: int| match_on(earlier, i, at);
            assert(match_on(sent, i, at)) by {
                assert(forall|j: int| 0 <= j < earlier.len() ==> earlier[j] == sent[j]);
            }
        }
        if sent[at] == Broadcast::Init {
            let i = choose|i: int| match_announced(earlier, i, at);
            assert(match_announced(sent, i, at)) by {
                assert(forall|j: int| 0 <= j < earlier.len() ==> earlier[j] == sent[j]);
            }
        }
    } else {
        assert(forall|j: int| 0 <= j < earlier.len() ==> earlier[j] == sent[j]);
        if sent[at] == Broadcast::NextState || sent[at] == Broadcast::GameEnded {
            assert(stage_after(earlier) == Some(Stage::Playing));
            playing_means_init(earlier);
            let i = choose|i: int| match_on(earlier, i, earlier.len() as int);
            assert(match_on(sent, i, at));
        }
        if sent[at] == Broadcast::Init {
            assert(stage_after(earlier) == Some(Stage::Announced));
            announced_means_game_starting(earlier);
            let i = choose|i: int| match_announced(earlier, i, earlier.len() as int);
            assert(match_announced(sent, i, at));
        }
    }
}

/// Whatever happens to a driver that waits: every `NextState` and every
/// `GameEnded` that is sent follows the `Init` of its own match, and every
/// `Init` follows the `GameStarting` of its own match.
pub proof fn driver_messages_are_preceded(driver: MatchModel, steps: Seq<MatchStep>, at: int)
    requires
        driver.phase == DriverPhase::Waiting,
        0 <= at < sent_in(driver, steps).len(),
    ensures
        ({
            let sent = sent_in(driver, steps);
            &&& (sent[at] == Broadcast::NextState || sent[at] == Broadcast::GameEnded ==> exists|i: int|
                match_on(sent, i, at))
            &&& (sent[at] == Broadcast::Init ==> exists|i: int| match_announced(sent, i, at))
        }),
{
    messages_come_in_turn(driver, steps);
    in_turn_means_preceded(sent_in(driver, steps), at);
}

/// A run of messages that ends with a match on holds the `Init` of that
/// match, and nothing after it that ends or starts a match.
proof fn playing_means_init(sent: Seq<Broadcast>)
    requires
        stage_after(sent) == Some(Stage::Playing),
    ensures
        exists|i: int| match_on(sent, i, sent.len() as int),
    decreases sent.len(),
{
    if sent.len() > 0 {
        let earlier = sent.drop_last();
        assert(forall|j: int| 0 <= j < earlier.len() ==> earlier[j] == sent[j]);
        if sent.last() == Broadcast::Init {
            assert(match_on(sent, sent.len() - 1, sent.len() as int));
        } else {
            playing_means_init(earlier);
            let i = choose|i: int| match_on(earlier, i, earlier.len() as int);
            assert(match_on(sent, i, sent.len() as int));
        }
    }
}

/// A run of messages that ends with a match announced holds the
/// `GameStarting` of that match, and nothing but kills after it.
proof fn announced_means_game_starting(sent: Seq<Broadcast>)
    requires
        stage_after(sent) == Some(Stage::Announced),
    ensures
        exists|i: int| match_announced(sent, i, sent.len() as int),
    decreases sent.len(),
{
    if sent.len() > 0 {
        let earlier = sent.drop_last();
        assert(forall|j: int| 0 <= j < earlier.len() ==> earlier[j] == sent[j]);
        if sent.last() == Broadcast::GameStarting {
            assert(match_announced(sent, sent.len() - 1, sent.len() as int));
        } else {
            announced_means_game_starting(earlier);
            let i = choose|i: int| match_announced(earlier, i, earlier.len() as int);
            assert(match_announced(sent, i, sent.len() as int));
        }
    }
}

/// The place of a player's first entry in `pending`; the length of
/// `pending` where the player has none.
pub open spec fn first_entry(pending: Seq<(PlayerId, PlayerAction)>, id: PlayerId) -> int
    decreases pending.len(),
{
    if pending.len() == 0 {
        0
    } else if pending[0].0 == id {
        0
    } else {
        1 + first_entry(pending.subrange(1, pending.len() as int), id)
    }
}

/// A player with an entry has a first entry.
pub proof fn first_entry_is_first(pending: Seq<(PlayerId, PlayerAction)>, id: PlayerId)
    requires
        submitted(pending, id),
    ensures
        0 <= first_entry(pending, id) < pending.len(),
        pending[first_entry(pending, id)].0 == id,
        is_first(pending, first_entry(pending, id)),
    decreases pending.len(),
{
    let k = choose|k: int| 0 <= k < pending.len() && (#[trigger] pending[k]).0 == id;
    if pending[0].0 != id {
        let rest = pending.subrange(1, pending.len() as int);
        assert(rest[k - 1] == pending[k]);
        first_entry_is_first(rest, id);
        let f = first_entry(rest, id);
        assert(rest[f] == pending[f + 1]);
        assert forall|j: int| 0 <= j < f + 1 implies (#[trigger] pending[j]).0 != pending[f + 1].0 by {
            if j > 0 {
                assert(rest[j - 1] == pending[j]);
            }
        }
    }
}

/// Of each tick exactly one action of each player is taken, however many
/// the player submitted: the actions of a tick hold one entry for each
/// player who remains and submitted any, and it is the player's first.
pub proof fn one_action_per_player(
    actions: Map<PlayerId, PlayerAction>,
    pending: Seq<(PlayerId, PlayerAction)>,
    remaining: Set<PlayerId>,
    id: PlayerId,
)
    requires
        actions_of_tick(actions, pending, remaining),
    ensures
        actions.contains_key(id) <==> remaining.contains(id) && submitted(pending, id),
        actions.contains_key(id) ==> actions[id] == pending[first_entry(pending, id)].1,
{
    if actions.contains_key(id) {
        first_entry_is_first(pending, id);
        let f = first_entry(pending, id);
        assert(remaining.contains(pending[f].0));
    }
}

/// What is taken of a tick depends on nothing but what was submitted and
/// who remains.
pub proof fn actions_of_tick_are_determined(
    one: Map<PlayerId, PlayerAction>,
    other: Map<PlayerId, PlayerAction>,
    pending: Seq<(PlayerId, PlayerAction)>,
    remaining: Set<PlayerId>,
)
    requires
        actions_of_tick(one, pending, remaining),
        actions_of_tick(other, pending, remaining),
    ensures
        one == other,
{
    assert forall|id: PlayerId| one.contains_key(id) implies #[trigger] one[id] == other[id] by {
        one_action_per_player(one, pending, remaining, id);
        one_action_per_player(other, pending, remaining, id);
    }
    assert(one =~= other);
}

} // verus!
