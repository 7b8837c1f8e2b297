use std::cell::Cell;
use std::sync::mpsc::channel;

use game_server::actors::game_mediator_actor::{GameMediatorActor, LobbyTick};
use game_server::actors::message_types::{IsGameRunning, IsPlayerConnected, IsPlayerRegistered};
use game_server::actors::mediator_messages::{
    Connect, ConnectResponse, GetRegisteredPlayers, Register, RegisterResponse, Unregister,
};
use game_server::actors::shared_messages::GameEngineCrash;
use game_server::actors::websocket_actor::{CloseKind, Delivery, PlayerCommand, SessionUpdate, WebsocketActor};
use game_server::errors::{GameEngineError, ServiceError};
use game_server::game::game_player::{trap_errors, DriverPhase, GamePlayer, TickUpdate, MAX_TRIES};
use game_server::game::ServerState;
use game_server::jwt::audience::Player;
use game_server::jwt::{JWTPlayerData, JWTToken};
use game_server::protocol::actions::{Direction, MoveAction, PlayerActionEnum};
use game_server::protocol::registration::RegistrationUpdateEnum;
use game_server::protocol::websocket::WebsocketMessage;
use game_server::protocol::{GameState, GameStateUpdate, PlayerAction, TaggedRequest};

const A: u128 = 0xa;
const B: u128 = 0xb;

fn lobby(min: usize, max: usize, wait: u32) -> GameMediatorActor {
    let (sender, receiver) = std::sync::mpsc::channel();
    std::mem::forget(receiver);
    GameMediatorActor::new(sender, min, max, wait)
}

fn profile(name: &str) -> JWTPlayerData {
    JWTPlayerData::new(name.to_string())
}

fn register(mediator: &mut GameMediatorActor, id: u128, name: &str) -> (RegisterResponse, Option<RegistrationUpdateEnum>) {
    let (response, update) = mediator.register(Register { id, data: profile(name) });
    (response, update.map(|u| u.0))
}

fn session(id: u128, name: &str) -> WebsocketActor {
    WebsocketActor::new(JWTToken::new::<Player>(id, 1_000, 600, profile(name)))
}

fn state(text: &str) -> GameState {
    GameState { document: text.to_string() }
}

fn move_up() -> PlayerAction {
    TaggedRequest::new(PlayerActionEnum::Move(MoveAction { direction: Direction::Up }))
}

fn why_of(error: &ServiceError) -> String {
    match error {
        ServiceError::CannotSendAction { why } => why.clone(),
        other => panic!("not an action error: {:?}", other),
    }
}

#[test]
fn happy_path() {
    let mut mediator = lobby(2, 4, 3);
    let mut driver = GamePlayer::new(5, 1);
    assert_eq!(mediator.connect(Connect(A, 1)), ConnectResponse::Connected(ServerState::Registration));
    assert_eq!(mediator.connect(Connect(B, 2)), ConnectResponse::Connected(ServerState::Registration));

    let (response, update) = register(&mut mediator, A, "a");
    assert_eq!(response, RegisterResponse::Success);
    match update {
        Some(RegistrationUpdateEnum::WaitingOnPlayers { players, min_players_needed, max_players_allowed }) => {
            assert_eq!(players.len(), 1);
            assert_eq!(min_players_needed, 2);
            assert_eq!(max_players_allowed, 4);
        },
        other => panic!("unexpected update {:?}", other),
    }
    let (response, update) = register(&mut mediator, B, "b");
    assert_eq!(response, RegisterResponse::Success);
    match update {
        Some(RegistrationUpdateEnum::GameStartingSoon { players, seconds_left, .. }) => {
            assert_eq!(players.len(), 2);
            assert_eq!(seconds_left, 3);
        },
        other => panic!("unexpected update {:?}", other),
    }

    for expected in [2u32, 1u32] {
        match mediator.tick_registration_update() {
            LobbyTick::StartingSoon(update) => match update.0 {
                RegistrationUpdateEnum::GameStartingSoon { seconds_left, .. } => assert_eq!(seconds_left, expected),
                other => panic!("unexpected update {:?}", other),
            },
            other => panic!("unexpected tick {:?}", other),
        }
        assert_eq!(mediator.get_server_state(), ServerState::Registration);
    }
    let order = match mediator.tick_registration_update() {
        LobbyTick::StartGame { starting, player_order, signalled } => {
            match starting.0 {
                RegistrationUpdateEnum::GameStarting { players, player_order: told } => {
                    assert_eq!(players.len(), 2);
                    assert!(players.contains_key(&A) && players.contains_key(&B));
                    assert_eq!(told, player_order);
                },
                other => panic!("unexpected announcement {:?}", other),
            }
            assert!(signalled);
            player_order
        },
        other => panic!("unexpected tick {:?}", other),
    };
    assert!(order == vec![A, B] || order == vec![B, A]);
    assert_eq!(mediator.get_server_state(), ServerState::Initializing);
    assert_eq!(mediator.get_registered_players(GetRegisteredPlayers).player_order, Some(order.clone()));

    driver.init_game(&order);
    let init = driver.game_initialized(state("{}")).expect("a match was being set up");
    match &init.0 {
        GameStateUpdate::Init { ticks_left, seconds_per_tick, game_state } => {
            assert_eq!(*ticks_left, 5);
            assert_eq!(*seconds_per_tick, 1);
            assert_eq!(game_state.document, "{}");
        },
        other => panic!("unexpected update {:?}", other),
    }
    assert!(!mediator.is_game_running(IsGameRunning));
    mediator.handle_init(init);
    assert_eq!(mediator.get_server_state(), ServerState::Running);
    assert!(mediator.is_game_running(IsGameRunning));

    for left in [4u32, 3, 2, 1] {
        let actions = driver.begin_tick(Vec::new()).expect("a match is running");
        assert!(actions.is_empty());
        match driver.end_tick(state("{}"), actions).expect("a tick had begun") {
            TickUpdate::Next(next) => {
                match &next.0 {
                    GameStateUpdate::NextState { ticks_left, seconds_per_tick, actions_taken, .. } => {
                        assert_eq!(*ticks_left, left);
                        assert_eq!(*seconds_per_tick, 1);
                        assert!(actions_taken.is_empty());
                    },
                    other => panic!("unexpected update {:?}", other),
                }
                mediator.handle_next_state(next);
                assert_eq!(mediator.get_server_state(), ServerState::Running);
            },
            other => panic!("unexpected update {:?}", other),
        }
    }
    let actions = driver.begin_tick(Vec::new()).expect("a match is running");
    match driver.end_tick(state("{}"), actions).expect("a tick had begun") {
        TickUpdate::Ended(ended) => {
            match &ended.0 {
                GameStateUpdate::GameEnded { winners, .. } => {
                    let mut winners = winners.clone();
                    winners.sort();
                    assert_eq!(winners, vec![A, B]);
                },
                other => panic!("unexpected update {:?}", other),
            }
            mediator.handle_game_ended(ended);
        },
        other => panic!("unexpected update {:?}", other),
    }
    assert_eq!(driver.get_phase(), DriverPhase::Waiting);
    assert_eq!(mediator.get_server_state(), ServerState::Registration);
    let registered = mediator.get_registered_players(GetRegisteredPlayers);
    assert!(registered.players.is_empty());
    assert_eq!(registered.player_order, None);
    assert_eq!(mediator.get_secs_left(), 3);
    assert!(mediator.is_player_connected(IsPlayerConnected(A)) && mediator.is_player_connected(IsPlayerConnected(B)));
}

#[test]
fn mid_lobby_unregister() {
    let mut mediator = lobby(2, 4, 3);
    register(&mut mediator, A, "a");
    register(&mut mediator, B, "b");
    assert!(matches!(mediator.tick_registration_update(), LobbyTick::StartingSoon(_)));
    assert_eq!(mediator.get_secs_left(), 2);

    let (removed, update) = mediator.unregister(Unregister { id: B });
    assert!(removed);
    match update.map(|u| u.0) {
        Some(RegistrationUpdateEnum::WaitingOnPlayers { players, .. }) => {
            assert_eq!(players.len(), 1);
            assert_eq!(players.get(&A).map(|p| p.get_name().clone()), Some("a".to_string()));
        },
        other => panic!("unexpected update {:?}", other),
    }
    assert_eq!(mediator.get_secs_left(), 2);
    for _ in 0..5 {
        assert!(matches!(mediator.tick_registration_update(), LobbyTick::Idle));
    }
    assert_eq!(mediator.get_secs_left(), 2);
    assert_eq!(mediator.get_server_state(), ServerState::Registration);

    let (response, update) = register(&mut mediator, 0xc, "c");
    assert_eq!(response, RegisterResponse::Success);
    assert_eq!(mediator.get_secs_left(), 3);
    match update {
        Some(RegistrationUpdateEnum::GameStartingSoon { seconds_left, .. }) => assert_eq!(seconds_left, 3),
        other => panic!("unexpected update {:?}", other),
    }
}

#[test]
fn max_players() {
    let mut mediator = lobby(2, 4, 3);
    for id in 1u128..=4 {
        assert_eq!(register(&mut mediator, id, "p").0, RegisterResponse::Success);
    }
    let (response, update) = register(&mut mediator, 5, "late");
    assert_eq!(response, RegisterResponse::TooManyRegistered { max_allowed: 4 });
    assert!(update.is_none());
    let registered = mediator.get_registered_players(GetRegisteredPlayers).players;
    assert_eq!(registered.len(), 4);
    assert!(!registered.contains_key(&5));
    assert!(!mediator.is_player_registered(IsPlayerRegistered(5)));
    // one who is registered may still register again at the cap
    assert_eq!(register(&mut mediator, 4, "again").0, RegisterResponse::Success);
}

#[test]
fn double_action_within_a_tick() {
    let (sender, receiver) = channel();
    let mut a = session(A, "a");
    let mut driver = GamePlayer::new(5, 1);
    driver.init_game(&vec![A, B]);
    driver.game_initialized(state("{}")).expect("a match was being set up");
    a.handle_update(SessionUpdate::GameStarting);
    a.handle_update(SessionUpdate::Init);

    assert!(a.do_action(move_up(), &sender).is_ok());
    let second = a.do_action(move_up(), &sender).expect_err("one action per tick");
    assert_eq!(why_of(&second), "already sent player action");
    match a.handle_message(WebsocketMessage::Move(TaggedRequest::new(MoveAction { direction: Direction::Left })), &sender) {
        PlayerCommand::Reject(error) => assert_eq!(why_of(&error), "already sent player action"),
        other => panic!("unexpected command {:?}", other),
    }

    let pending: Vec<(u128, PlayerAction)> = receiver.try_iter().collect();
    assert_eq!(pending.len(), 1);
    let actions = driver.begin_tick(pending).expect("a match is running");
    assert_eq!(actions.len(), 1);
    assert!(matches!(actions.get(&A).map(|a| &a.data), Some(PlayerActionEnum::Move(MoveAction { direction: Direction::Up }))));
    match driver.end_tick(state("{}"), actions).expect("a tick had begun") {
        TickUpdate::Next(next) => match next.0 {
            GameStateUpdate::NextState { actions_taken, .. } => assert_eq!(actions_taken.len(), 1),
            other => panic!("unexpected update {:?}", other),
        },
        other => panic!("unexpected update {:?}", other),
    }
    a.handle_update(SessionUpdate::NextState);
    assert!(a.do_action(move_up(), &sender).is_ok());
}

#[test]
fn kill_and_subsequent_action() {
    let (sender, _receiver) = channel();
    let mut a = session(A, "a");
    let mut b = session(B, "b");
    let mut driver = GamePlayer::new(5, 1);
    driver.init_game(&vec![A, B]);
    driver.game_initialized(state("{}")).expect("a match was being set up");
    for s in [&mut a, &mut b] {
        s.handle_update(SessionUpdate::GameStarting);
        s.handle_update(SessionUpdate::Init);
    }
    for _ in 0..2 {
        let actions = driver.begin_tick(Vec::new()).expect("a match is running");
        assert!(matches!(driver.end_tick(state("{}"), actions), Some(TickUpdate::Next(_))));
    }
    let actions = driver.begin_tick(Vec::new()).expect("a match is running");
    let killed = driver.notify_player_killed(A);
    assert_eq!(killed.get_player_id(), A);
    assert!(matches!(killed.into_update(), GameStateUpdate::PlayerKilled { id } if id == A));
    assert!(matches!(a.handle_update(SessionUpdate::PlayerKilled(A)), Delivery::Forward));
    assert!(matches!(b.handle_update(SessionUpdate::PlayerKilled(A)), Delivery::Forward));

    let refused = a.do_action(move_up(), &sender).expect_err("the player was killed");
    assert_eq!(why_of(&refused), "player has been killed");
    assert!(b.do_action(move_up(), &sender).is_ok());

    match driver.end_tick(state("{}"), actions).expect("a tick had begun") {
        TickUpdate::Ended(ended) => match ended.0 {
            GameStateUpdate::GameEnded { winners, .. } => assert_eq!(winners, vec![B]),
            other => panic!("unexpected update {:?}", other),
        },
        other => panic!("unexpected update {:?}", other),
    }
    assert_eq!(driver.get_ticks_left(), (2, 5));
    // the mark of the kill outlives the end of the match and goes with the next one
    a.handle_update(SessionUpdate::GameEnded);
    assert_eq!(why_of(&a.do_action(move_up(), &sender).expect_err("still marked")), "player has been killed");
    a.handle_update(SessionUpdate::Init);
    assert!(a.do_action(move_up(), &sender).is_ok());
}

#[test]
fn engine_crash() {
    let mut mediator = lobby(2, 4, 3);
    let mut a = session(A, "a");
    mediator.connect(Connect(A, 1));
    register(&mut mediator, A, "a");
    register(&mut mediator, B, "b");
    let mut driver = GamePlayer::new(5, 1);
    driver.init_game(&vec![A, B]);
    driver.game_initialized(state("{}")).expect("a match was being set up");
    driver.begin_tick(Vec::new()).expect("a match is running");

    let calls = Cell::new(0usize);
    let result: Result<GameState, GameEngineError> = trap_errors(MAX_TRIES, || {
        calls.set(calls.get() + 1);
        Err(GameEngineError::FailedToRunMethod("Update".to_string(), "boom".to_string()))
    });
    assert_eq!(calls.get(), 5);
    let error = result.expect_err("the script throws every time");
    assert_eq!(error.get_developer_notes(), "Failed to run method Update: boom");
    driver.abandon();
    assert_eq!(driver.get_phase(), DriverPhase::Waiting);

    mediator.handle_engine_crash(GameEngineCrash);
    assert_eq!(mediator.get_server_state(), ServerState::FatalError);
    assert_eq!(mediator.get_registered_players(GetRegisteredPlayers).player_order, None);
    assert_eq!(mediator.player_sessions(), vec![1]);
    match a.handle_update(SessionUpdate::EngineCrashed) {
        Delivery::Fatal(error, close) => {
            assert!(matches!(error, ServiceError::GameEngineCrash));
            assert_eq!(close, CloseKind::Error);
            assert_eq!(error.get_error_response().get_status_code(), 500);
        },
        other => panic!("unexpected delivery {:?}", other),
    }
    assert_eq!(mediator.connect(Connect(0xc, 3)), ConnectResponse::NotRegistered);
    assert_eq!(register(&mut mediator, 0xc, "c").0, RegisterResponse::GameAlreadyStarted);
}
