use game_server::actors::game_mediator_actor::{GameMediatorActor, LobbyTick};
use game_server::actors::message_types::{IsGameRunning, IsPlayerConnected};
use game_server::actors::mediator_messages::{
    Connect, ConnectResponse, ConnectViewer, Disconnect, DisconnectViewer, GetRegisteredPlayers, Register,
    RegisterResponse, Unregister,
};
use game_server::actors::shared_messages::{GameEnded, GameStarting, Init, NextState, PlayerKilled, RegistrationUpdate};
use game_server::game::ServerState;
use game_server::handlers::{connect_player, connect_viewer};
use game_server::jwt::JWTPlayerData;
use game_server::protocol::registration::RegistrationUpdateEnum;
use game_server::protocol::{GameState, GameStateUpdate};
use game_server::errors::ServiceError;
use std::collections::HashMap;

fn lobby(min: usize, max: usize, wait: u32) -> GameMediatorActor {
    let (sender, receiver) = std::sync::mpsc::channel();
    std::mem::forget(receiver);
    GameMediatorActor::new(sender, min, max, wait)
}

fn reg(mediator: &mut GameMediatorActor, id: u128, name: &str) -> RegisterResponse {
    mediator.register(Register { id, data: JWTPlayerData::new(name.to_string()) }).0
}

fn names(mediator: &GameMediatorActor) -> Vec<(u128, String)> {
    let mut all: Vec<(u128, String)> = mediator
        .get_registered_players(GetRegisteredPlayers)
        .players
        .iter()
        .map(|(id, data)| (*id, data.get_name().clone()))
        .collect();
    all.sort();
    all
}

fn started(min: usize, max: usize, wait: u32, players: &[u128]) -> (GameMediatorActor, Vec<u128>) {
    let mut mediator = lobby(min, max, wait);
    for id in players {
        assert_eq!(reg(&mut mediator, *id, "p"), RegisterResponse::Success);
    }
    loop {
        match mediator.tick_registration_update() {
            LobbyTick::StartGame { player_order, .. } => return (mediator, player_order),
            LobbyTick::StartingSoon(_) => {},
            LobbyTick::Idle => panic!("the lobby's clock stands still"),
        }
    }
}

#[test]
fn new_coordinator_has_an_open_empty_lobby() {
    let mediator = lobby(2, 4, 3);
    assert_eq!(mediator.get_server_state(), ServerState::Registration);
    assert_eq!(mediator.get_secs_left(), 3);
    assert!(names(&mediator).is_empty());
    assert!(mediator.player_sessions().is_empty());
    assert!(mediator.viewer_sessions().is_empty());
    assert_eq!(mediator.get_registered_players(GetRegisteredPlayers).player_order, None);
}

#[test]
fn cap_below_minimum_is_raised() {
    let mut mediator = lobby(3, 1, 3);
    assert_eq!(reg(&mut mediator, 1, "a"), RegisterResponse::Success);
    assert_eq!(reg(&mut mediator, 2, "b"), RegisterResponse::Success);
    assert_eq!(reg(&mut mediator, 3, "c"), RegisterResponse::Success);
    assert_eq!(reg(&mut mediator, 4, "d"), RegisterResponse::TooManyRegistered { max_allowed: 3 });
}

#[test]
fn register_and_unregister_follow_set_algebra() {
    let mut mediator = lobby(2, 3, 9);
    let mut expected: std::collections::BTreeSet<u128> = std::collections::BTreeSet::new();
    let requests: [(bool, u128); 12] = [
        (true, 1), (true, 1), (false, 2), (true, 2), (true, 3), (true, 4),
        (false, 1), (false, 1), (true, 4), (true, 1), (false, 9), (true, 5),
    ];
    for (register, id) in requests {
        if register {
            let response = reg(&mut mediator, id, "p");
            if expected.contains(&id) || expected.len() < 3 {
                assert_eq!(response, RegisterResponse::Success);
                expected.insert(id);
            } else {
                assert_eq!(response, RegisterResponse::TooManyRegistered { max_allowed: 3 });
            }
        } else {
            assert!(mediator.unregister(Unregister { id }).0);
            expected.remove(&id);
        }
        let ids: Vec<u128> = names(&mediator).into_iter().map(|(id, _)| id).collect();
        assert_eq!(ids, expected.iter().cloned().collect::<Vec<_>>());
        assert_eq!(mediator.get_server_state(), ServerState::Registration);
    }
}

#[test]
fn registering_again_keeps_the_first_profile() {
    let mut mediator = lobby(2, 4, 3);
    assert_eq!(reg(&mut mediator, 1, "first"), RegisterResponse::Success);
    let (response, update) = mediator.register(Register { id: 1, data: JWTPlayerData::new("second".to_string()) });
    assert_eq!(response, RegisterResponse::Success);
    assert!(update.is_some());
    assert_eq!(names(&mediator), vec![(1, "first".to_string())]);
}

#[test]
fn register_outside_the_lobby_changes_nothing() {
    let (mut mediator, order) = started(2, 4, 1, &[1, 2]);
    assert!(!mediator.is_game_running(IsGameRunning));
    assert_eq!(mediator.get_server_state(), ServerState::Initializing);
    let (response, update) = mediator.register(Register { id: 3, data: JWTPlayerData::new("c".to_string()) });
    assert_eq!(response, RegisterResponse::GameAlreadyStarted);
    assert!(update.is_none());
    assert_eq!(names(&mediator).len(), 2);
    let (removed, update) = mediator.unregister(Unregister { id: 1 });
    assert!(!removed);
    assert!(update.is_none());
    assert_eq!(names(&mediator).len(), 2);
    assert_eq!(mediator.get_registered_players(GetRegisteredPlayers).player_order, Some(order));

    mediator.handle_init(Init::new(GameState { document: "{}".to_string() }, 5, 1));
    assert_eq!(reg(&mut mediator, 3, "c"), RegisterResponse::GameAlreadyStarted);
    assert!(!mediator.unregister(Unregister { id: 1 }).0);
    assert_eq!(names(&mediator).len(), 2);
}

#[test]
fn countdown_restarts_when_players_become_enough() {
    let mut mediator = lobby(2, 4, 5);
    reg(&mut mediator, 1, "a");
    reg(&mut mediator, 2, "b");
    for _ in 0..3 {
        mediator.tick_registration_update();
    }
    assert_eq!(mediator.get_secs_left(), 2);
    mediator.unregister(Unregister { id: 2 });
    assert_eq!(mediator.get_secs_left(), 2);
    assert!(matches!(mediator.tick_registration_update(), LobbyTick::Idle));
    reg(&mut mediator, 3, "c");
    assert_eq!(mediator.get_secs_left(), 5);
    // a third player does not cross the minimum and leaves the clock alone
    mediator.tick_registration_update();
    reg(&mut mediator, 4, "d");
    assert_eq!(mediator.get_secs_left(), 4);
}

#[test]
fn lobby_of_one_second_starts_at_the_first_tick() {
    let (mediator, order) = started(2, 4, 1, &[7, 8]);
    assert_eq!(mediator.get_secs_left(), 0);
    let mut sorted = order.clone();
    sorted.sort();
    assert_eq!(sorted, vec![7, 8]);
}

#[test]
fn clock_stands_still_outside_the_lobby() {
    let (mut mediator, _) = started(2, 4, 2, &[1, 2]);
    assert!(matches!(mediator.tick_registration_update(), LobbyTick::Idle));
    assert_eq!(mediator.get_server_state(), ServerState::Initializing);
    assert_eq!(mediator.get_secs_left(), 0);
}

#[test]
fn connect_rules() {
    let mut mediator = lobby(2, 4, 1);
    assert_eq!(mediator.connect(Connect(1, 10)), ConnectResponse::Connected(ServerState::Registration));
    assert_eq!(mediator.connect(Connect(1, 11)), ConnectResponse::AlreadyConnected);
    assert_eq!(mediator.player_sessions(), vec![10]);
    reg(&mut mediator, 1, "a");
    reg(&mut mediator, 2, "b");
    assert!(matches!(mediator.tick_registration_update(), LobbyTick::StartGame { .. }));
    assert_eq!(mediator.connect(Connect(2, 12)), ConnectResponse::Connected(ServerState::Initializing));
    assert_eq!(mediator.connect(Connect(3, 13)), ConnectResponse::NotRegistered);
    assert!(!mediator.is_player_connected(IsPlayerConnected(3)));
    assert_eq!(mediator.connect(Connect(1, 14)), ConnectResponse::AlreadyConnected);
    let mut sessions = mediator.player_sessions();
    sessions.sort();
    assert_eq!(sessions, vec![10, 12]);
}

#[test]
fn stale_disconnect_does_not_evict() {
    let mut mediator = lobby(2, 4, 3);
    mediator.connect(Connect(1, 10));
    mediator.disconnect(Disconnect(1, 10));
    assert!(!mediator.is_player_connected(IsPlayerConnected(1)));
    mediator.connect(Connect(1, 11));
    mediator.disconnect(Disconnect(1, 10));
    assert!(mediator.is_player_connected(IsPlayerConnected(1)));
    assert_eq!(mediator.player_sessions(), vec![11]);
    mediator.disconnect(Disconnect(2, 11));
    assert!(mediator.is_player_connected(IsPlayerConnected(1)));
    mediator.disconnect(Disconnect(1, 11));
    assert!(mediator.player_sessions().is_empty());
}

#[test]
fn viewers_come_and_go() {
    let mut mediator = lobby(2, 4, 3);
    assert_eq!(mediator.connect_viewer(ConnectViewer(5)).0, ServerState::Registration);
    assert_eq!(mediator.connect_viewer(ConnectViewer(6)).0, ServerState::Registration);
    mediator.connect_viewer(ConnectViewer(5));
    let mut viewers = mediator.viewer_sessions();
    viewers.sort();
    assert_eq!(viewers, vec![5, 6]);
    mediator.disconnect_viewer(DisconnectViewer(5));
    mediator.disconnect_viewer(DisconnectViewer(9));
    assert_eq!(mediator.viewer_sessions(), vec![6]);
    assert_eq!(connect_viewer(mediator.connect_viewer(ConnectViewer(7))), ServerState::Registration);
}

#[test]
fn game_updates_pass_through() {
    let (mut mediator, _) = started(2, 4, 1, &[1, 2]);
    let next = mediator.handle_next_state(NextState::new(GameState { document: "s".to_string() }, HashMap::new(), 3, 1));
    assert!(matches!(next.0, GameStateUpdate::NextState { ticks_left: 3, seconds_per_tick: 1, .. }));
    assert_eq!(mediator.get_server_state(), ServerState::Initializing);
    let killed = mediator.handle_player_killed(PlayerKilled::new(2));
    assert_eq!(killed.get_player_id(), 2);
    assert_eq!(names(&mediator).len(), 2);
    let ended = mediator.handle_game_ended(GameEnded::new(vec![1], GameState { document: "e".to_string() }, HashMap::new()));
    assert!(matches!(ended.0, GameStateUpdate::GameEnded { ref winners, .. } if winners == &vec![1]));
    assert_eq!(mediator.get_server_state(), ServerState::Registration);
    assert!(names(&mediator).is_empty());
    assert_eq!(mediator.get_secs_left(), 1);
    // the lobby works again
    assert_eq!(reg(&mut mediator, 3, "c"), RegisterResponse::Success);
}

#[test]
fn registration_messages_hold_what_they_were_given() {
    let mut players = HashMap::new();
    players.insert(1u128, JWTPlayerData::new("a".to_string()));
    match RegistrationUpdate::waiting_on_players(players.clone(), 2, 4).0 {
        RegistrationUpdateEnum::WaitingOnPlayers { players, min_players_needed: 2, max_players_allowed: 4 } => {
            assert_eq!(players.len(), 1)
        },
        other => panic!("unexpected {:?}", other),
    }
    assert!(matches!(
        RegistrationUpdate::game_starting_soon(players.clone(), 2, 4, 7).0,
        RegistrationUpdateEnum::GameStartingSoon { min_players_needed: 2, max_players_allowed: 4, seconds_left: 7, .. }
    ));
    assert!(matches!(
        RegistrationUpdate::game_starting(players.clone(), vec![1]).0,
        RegistrationUpdateEnum::GameStarting { ref player_order, .. } if player_order == &vec![1]
    ));
    assert!(matches!(
        GameStarting::new(players, vec![1]).0,
        RegistrationUpdateEnum::GameStarting { ref player_order, .. } if player_order == &vec![1]
    ));
}

#[test]
fn endpoint_answers() {
    assert_eq!(connect_player(1, ConnectResponse::Connected(ServerState::Running)).ok(), Some(ServerState::Running));
    assert!(matches!(connect_player(1, ConnectResponse::NotRegistered), Err(ServiceError::NotRegistered(1))));
    assert!(matches!(connect_player(2, ConnectResponse::AlreadyConnected), Err(ServiceError::AlreadyConnected(2))));
}

#[test]
fn start_is_signalled_to_the_driver() {
    let (sender, receiver) = std::sync::mpsc::channel();
    let mut mediator = GameMediatorActor::new(sender, 2, 4, 1);
    reg(&mut mediator, 1, "a");
    assert!(receiver.try_recv().is_err());
    reg(&mut mediator, 2, "b");
    match mediator.tick_registration_update() {
        LobbyTick::StartGame { player_order, signalled, .. } => {
            assert!(signalled);
            assert_eq!(receiver.try_recv().ok(), Some(player_order));
        },
        other => panic!("unexpected {:?}", other),
    }
    assert!(receiver.try_recv().is_err());
}

#[test]
fn lobby_starts_without_a_driver() {
    let (sender, receiver) = std::sync::mpsc::channel();
    drop(receiver);
    let mut mediator = GameMediatorActor::new(sender, 2, 4, 1);
    reg(&mut mediator, 1, "a");
    reg(&mut mediator, 2, "b");
    assert!(matches!(mediator.tick_registration_update(), LobbyTick::StartGame { signalled: false, .. }));
    assert_eq!(mediator.get_server_state(), ServerState::Initializing);
}
