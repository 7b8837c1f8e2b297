//! What holds of the lobby whatever is asked of it, proved over
//! [`LobbyModel`].
use vstd::prelude::*;
use crate::actors::game_mediator_actor::LobbyModel;
use crate::actors::mediator_messages::RegisterResponse;
use crate::game::server_state::ServerState;
use crate::jwt::jwt_data::JWTPlayerData;
use crate::PlayerId;

verus! {

/// One request that changes who is registered.
pub enum LobbyRequest {
    Register(PlayerId, JWTPlayerData),
    Unregister(PlayerId),
}

/// The coordinator after one request.
pub open spec fn after_request(lobby: LobbyModel, request: LobbyRequest) -> LobbyModel {
    match request {
        LobbyRequest::Register(id, data) => lobby.register(id, data),
        LobbyRequest::Unregister(id) => lobby.unregister(id),
    }
}

/// The coordinator after a run of requests, taken from first to last.
pub open spec fn after_requests(lobby: LobbyModel, requests: Seq<LobbyRequest>) -> LobbyModel
    decreases requests.len(),
{
    if requests.len() == 0 {
        lobby
    } else {
        after_request(after_requests(lobby, requests.drop_last()), requests.last())
    }
}

/// The ids that are registered after one request, by the algebra of sets:
/// registering adds the id, unless that would make more than `cap` ids;
/// taking back removes it.
pub open spec fn ids_after_request(ids: Set<PlayerId>, request: LobbyRequest, cap: nat) -> Set<PlayerId> {
    match request {
        LobbyRequest::Register(id, _) => if ids.contains(id) || ids.len() < cap {
            ids.insert(id)
        } else {
            ids
        },
        LobbyRequest::Unregister(id) => ids.remove(id),
    }
}

/// The ids that are registered after a run of requests, by the algebra of
/// sets.
pub open spec fn ids_after_requests(ids: Set<PlayerId>, requests: Seq<LobbyRequest>, cap: nat) -> Set<PlayerId>
    decreases requests.len(),
{
    if requests.len() == 0 {
        ids
    } else {
        ids_after_request(ids_after_requests(ids, requests.drop_last(), cap), requests.last(), cap)
    }
}

/// Whatever is registered and taken back while the lobby is open, in
/// whatever order and however often: the lobby stays open and in order,
/// and those registered are the ones that the algebra of sets gives.
pub proof fn requests_follow_set_algebra(lobby: LobbyModel, requests: Seq<LobbyRequest>)
    requires
        lobby.wf(),
        lobby.state == ServerState::Registration,
    ensures
        after_requests(lobby, requests).wf(),
        after_requests(lobby, requests).state == ServerState::Registration,
        after_requests(lobby, requests).registered.dom() == ids_after_requests(
            lobby.registered.dom(),
            requests,
            lobby.max_players as nat,
        ),
        after_requests(lobby, requests).max_players == lobby.max_players,
    decreases requests.len(),
{
    if requests.len() > 0 {
        requests_follow_set_algebra(lobby, requests.drop_last());
        let before = after_requests(lobby, requests.drop_last());
        match requests.last() {
            LobbyRequest::Register(id, data) => {
                assert(before.register(id, data).registered.dom() =~= ids_after_request(
                    before.registered.dom(),
                    requests.last(),
                    lobby.max_players as nat,
                ));
            },
            LobbyRequest::Unregister(id) => {
                vstd::set_lib::lemma_len_subset(before.registered.dom().remove(id), before.registered.dom());
                assert(before.unregister(id).registered.dom() =~= before.registered.dom().remove(id));
            },
        }
    }
}

/// Registering twice is registering once: the second request changes
/// nothing, whatever profile it brings.
pub proof fn register_is_idempotent(lobby: LobbyModel, id: PlayerId, first: JWTPlayerData, second: JWTPlayerData)
    requires
        lobby.wf(),
    ensures
        lobby.register(id, first).register(id, second) == lobby.register(id, first),
        lobby.register_response(id) == RegisterResponse::Success ==> lobby.register(
            id,
            first,
        ).register_response(id) == RegisterResponse::Success,
{
    let once = lobby.register(id, first);
    if lobby.register_response(id) == RegisterResponse::Success {
        assert(once.registered.contains_key(id));
        assert(once.registered.dom().finite());
    }
}

/// A profile, once registered, stays as it is until the player's
/// registration is taken back or the match ends.
pub proof fn register_keeps_profile(lobby: LobbyModel, id: PlayerId, data: JWTPlayerData)
    requires
        lobby.registered.contains_key(id),
    ensures
        lobby.register(id, data).registered == lobby.registered,
{
}

/// Taking a registration back twice is taking it back once.
pub proof fn unregister_is_idempotent(lobby: LobbyModel, id: PlayerId)
    ensures
        lobby.unregister(id).unregister(id) == lobby.unregister(id),
        !lobby.unregister(id).registered.contains_key(id) || lobby.state != ServerState::Registration,
{
    assert(lobby.registered.remove(id).remove(id) =~= lobby.registered.remove(id));
}

/// Outside the lobby a registration changes nothing and is answered with
/// `GameAlreadyStarted`.
pub proof fn register_outside_lobby(lobby: LobbyModel, id: PlayerId, data: JWTPlayerData)
    requires
        lobby.state != ServerState::Registration,
    ensures
        lobby.register(id, data) == lobby,
        lobby.register_response(id) == RegisterResponse::GameAlreadyStarted,
{
}

/// When a registration makes the players enough, the countdown starts
/// anew: the next second of the lobby's clock finds it at the lobby's
/// full wait, and leaves it one below.
pub proof fn countdown_restarts_when_enough(lobby: LobbyModel, id: PlayerId, data: JWTPlayerData, order: Seq<PlayerId>)
    requires
        lobby.wf(),
        !lobby.enough_players(),
        lobby.register(id, data).enough_players(),
    ensures
        lobby.register(id, data).secs_left == lobby.lobby_wait_secs,
        lobby.register(id, data).tick(order).secs_left == lobby.lobby_wait_secs - 1,
{
}

/// The server's state says whether registrations can change: only in the
/// lobby do the registered players ever differ after a request.
pub proof fn registration_changes_only_in_lobby(lobby: LobbyModel, request: LobbyRequest)
    requires
        after_request(lobby, request).registered != lobby.registered,
    ensures
        lobby.state == ServerState::Registration,
{
}

/// At most one session is connected for a player: a second session is
/// turned away and the first stays.
pub proof fn one_session_per_player(lobby: LobbyModel, id: PlayerId, first: u64, second: u64)
    requires
        lobby.connect(id, first).connected.contains_key(id),
    ensures
        lobby.connect(id, first).connect(id, second) == lobby.connect(id, first),
{
}

/// A session that closes late does not take away the session that came
/// after it.
pub proof fn stale_disconnect_is_ignored(lobby: LobbyModel, id: PlayerId, stale: u64, fresh: u64)
    requires
        stale != fresh,
        lobby.connected.contains_key(id),
        lobby.connected[id] == fresh,
    ensures
        lobby.disconnect(id, stale) == lobby,
{
}

} // verus!
