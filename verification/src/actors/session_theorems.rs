//! What holds of a player's session whatever it is sent, proved over
//! [`SessionModel`].
use vstd::prelude::*;
use crate::actors::game_mediator_actor::LobbyModel;
use crate::actors::websocket_actor::{SessionModel, SessionUpdate};
use crate::PlayerId;
use crate::game::server_state::ServerState;

verus! {

/// An action is taken exactly where a match is running, the player was
/// not killed, and the player has not acted in this tick.
pub proof fn action_taken_only_when_allowed(session: SessionModel)
    ensures
        session.refusal() is None <==> session.server_state == ServerState::Running
            && !session.player_killed && !session.action_sent,
{
}

/// Once an action of the player was handed on, the next one is refused:
/// the player has acted in this tick.
pub proof fn second_action_is_refused(session: SessionModel)
    requires
        session.refusal() is None,
    ensures
        session.action_enqueued(true).refusal() == Some("already sent player action"@),
{
}

/// An action that was not handed on leaves the session as it was: the
/// player may try again.
pub proof fn failed_action_is_not_counted(session: SessionModel)
    ensures
        session.action_enqueued(false) == session,
{
}

/// A player who has acted stays refused until the next tick or the next
/// match: nothing else that the session is sent lets the player act again.
pub proof fn refused_until_next_tick(session: SessionModel, update: SessionUpdate)
    requires
        session.action_sent,
        update != SessionUpdate::Init,
        update != SessionUpdate::NextState,
    ensures
        session.updated(update).action_sent,
        session.updated(update).refusal() is Some,
{
}

/// A player who was killed stays refused until the next match is set up;
/// the end of the match does not lift it.
pub proof fn killed_until_next_match(session: SessionModel, update: SessionUpdate)
    requires
        session.player_killed,
        update != SessionUpdate::Init,
    ensures
        session.updated(update).player_killed,
        session.updated(update).refusal() == Some("player has been killed"@),
{
}

/// The kill of another player does not touch the session.
pub proof fn kill_of_another_player(session: SessionModel, id: u128)
    requires
        id != session.player_id,
    ensures
        session.updated(SessionUpdate::PlayerKilled(id)) == session,
{
}

/// The coordinator after it has done what it tells the sessions with
/// `update`; `order` is the order of play that it fixes where the match
/// starts.
pub open spec fn lobby_after(lobby: LobbyModel, update: SessionUpdate, order: Seq<PlayerId>) -> LobbyModel {
    match update {
        SessionUpdate::RegistrationUpdate => lobby,
        SessionUpdate::GameStarting => lobby.tick(order),
        SessionUpdate::Init => lobby.init(),
        SessionUpdate::NextState => lobby,
        SessionUpdate::PlayerKilled(_) => lobby,
        SessionUpdate::GameEnded => lobby.game_ended(),
        SessionUpdate::EngineCrashed => lobby.engine_crashed(),
    }
}

/// A session that knows the server's state still knows it after the
/// coordinator has changed it: the coordinator changes its state before it
/// tells the sessions, and what it tells them carries the change.
pub proof fn session_follows_server(
    lobby: LobbyModel,
    session: SessionModel,
    update: SessionUpdate,
    order: Seq<PlayerId>,
)
    requires
        session.server_state == lobby.state,
        update != SessionUpdate::EngineCrashed,
        update == SessionUpdate::GameStarting ==> lobby.starts_now(),
    ensures
        session.updated(update).server_state == lobby_after(lobby, update, order).state,
{
}

} // verus!
