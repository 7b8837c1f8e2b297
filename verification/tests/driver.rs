use std::cell::Cell;
use std::sync::mpsc::channel;

use game_server::game::game_player::{
    directions, should_retry, trap_errors, trap_errors_counted, weighted_actions, DriverPhase, GamePlayer,
    TickUpdate, MAX_TRIES,
};
use game_server::game::GameState as Lifecycle;
use game_server::game::ServerState;
use game_server::protocol::actions::{AttackAction, Direction, DropWeaponAction, MoveAction, PlayerActionEnum};
use game_server::protocol::{GameState, GameStateUpdate, PlayerAction, TaggedRequest};

fn tagged(direction: Direction, tag: &str) -> PlayerAction {
    TaggedRequest::new_tagged(MoveAction { direction }, tag.to_string()).transpose()
}

fn running(order: &[u128], ticks: u32) -> GamePlayer {
    let mut driver = GamePlayer::new(ticks, 2);
    driver.init_game(&order.to_vec());
    assert!(driver.game_initialized(GameState { document: "0".to_string() }).is_some());
    driver
}

fn sorted(mut ids: Vec<u128>) -> Vec<u128> {
    ids.sort();
    ids
}

#[test]
fn new_driver_waits() {
    let mut driver = GamePlayer::new(30, 1);
    assert_eq!(driver.get_phase(), DriverPhase::Waiting);
    assert_eq!(driver.get_ticks_left(), (0, 30));
    assert_eq!(driver.get_seconds_per_tick(), 1);
    assert!(driver.get_player_order().is_empty());
    assert!(driver.get_players_remaining().is_empty());
    assert!(!driver.is_round_running());
    assert!(driver.game_initialized(GameState { document: "x".to_string() }).is_none());
    assert!(driver.begin_tick(Vec::new()).is_none());
    assert!(driver.end_tick(GameState { document: "x".to_string() }, Default::default()).is_none());
    assert_eq!(driver.get_phase(), DriverPhase::Waiting);
}

#[test]
fn init_game_sets_the_match_up() {
    let mut driver = GamePlayer::new(30, 2);
    driver.init_game(&vec![3, 1, 2, 1]);
    assert_eq!(driver.get_phase(), DriverPhase::Starting);
    assert_eq!(driver.get_player_order(), vec![3, 1, 2, 1]);
    assert_eq!(sorted(driver.get_players_remaining()), vec![1, 2, 3]);
    assert_eq!(driver.get_ticks_left(), (30, 30));
    let init = driver.game_initialized(GameState { document: "first".to_string() }).expect("set up");
    match init.0 {
        GameStateUpdate::Init { game_state, ticks_left, seconds_per_tick } => {
            assert_eq!(game_state.document, "first");
            assert_eq!(ticks_left, 30);
            assert_eq!(seconds_per_tick, 2);
        },
        other => panic!("unexpected {:?}", other),
    }
    assert_eq!(driver.get_phase(), DriverPhase::Running);
    assert!(driver.is_round_running());
    assert!(driver.game_initialized(GameState { document: "again".to_string() }).is_none());
}

#[test]
fn tick_takes_first_action_of_each_remaining_player() {
    let mut driver = running(&[1, 2, 3], 10);
    driver.notify_player_killed(3);
    let pending = vec![
        (2, tagged(Direction::Up, "2-first")),
        (9, tagged(Direction::Up, "stranger")),
        (1, tagged(Direction::Left, "1-first")),
        (3, tagged(Direction::Down, "dead")),
        (2, tagged(Direction::Down, "2-second")),
        (1, tagged(Direction::Right, "1-second")),
    ];
    let actions = driver.begin_tick(pending).expect("a match is running");
    assert_eq!(sorted(actions.keys().cloned().collect()), vec![1, 2]);
    assert_eq!(actions[&1].tag.as_deref(), Some("1-first"));
    assert_eq!(actions[&2].tag.as_deref(), Some("2-first"));
    assert!(matches!(actions[&1].data, PlayerActionEnum::Move(MoveAction { direction: Direction::Left })));
    assert_eq!(driver.get_phase(), DriverPhase::Updating);
    assert_eq!(driver.get_ticks_left(), (9, 10));
    assert!(driver.begin_tick(Vec::new()).is_none());
    assert_eq!(driver.get_ticks_left(), (9, 10));
}

#[test]
fn collect_actions_keeps_nothing_of_strangers() {
    let driver = running(&[1], 10);
    let actions = driver.collect_actions(vec![(2, tagged(Direction::Up, "x")), (3, tagged(Direction::Up, "y"))]);
    assert!(actions.is_empty());
    assert!(driver.collect_actions(Vec::new()).is_empty());
}

#[test]
fn tick_drains_the_channel() {
    let (sender, receiver) = channel();
    let mut driver = running(&[1, 2], 10);
    sender.send((1u128, tagged(Direction::Up, "a"))).unwrap();
    sender.send((1u128, tagged(Direction::Down, "b"))).unwrap();
    sender.send((2u128, tagged(Direction::Left, "c"))).unwrap();
    let actions = driver.begin_tick_from(&receiver).expect("a match is running");
    assert_eq!(actions.len(), 2);
    assert_eq!(actions[&1].tag.as_deref(), Some("a"));
    assert_eq!(actions[&2].tag.as_deref(), Some("c"));
    assert!(receiver.try_recv().is_err());
    // outside a tick the channel is left alone
    sender.send((2u128, tagged(Direction::Left, "late"))).unwrap();
    assert!(driver.begin_tick_from(&receiver).is_none());
    assert!(receiver.try_recv().is_ok());
}

#[test]
fn match_ends_when_ticks_run_out() {
    let mut driver = running(&[1, 2], 2);
    let actions = driver.begin_tick(Vec::new()).unwrap();
    match driver.end_tick(GameState { document: "1".to_string() }, actions).unwrap() {
        TickUpdate::Next(next) => match next.0 {
            GameStateUpdate::NextState { game_state, ticks_left, seconds_per_tick, .. } => {
                assert_eq!(game_state.document, "1");
                assert_eq!(ticks_left, 1);
                assert_eq!(seconds_per_tick, 2);
            },
            other => panic!("unexpected {:?}", other),
        },
        other => panic!("unexpected {:?}", other),
    }
    let actions = driver.begin_tick(vec![(1, tagged(Direction::Up, "t"))]).unwrap();
    match driver.end_tick(GameState { document: "2".to_string() }, actions).unwrap() {
        TickUpdate::Ended(ended) => match ended.0 {
            GameStateUpdate::GameEnded { winners, game_state, actions_taken } => {
                assert_eq!(sorted(winners), vec![1, 2]);
                assert_eq!(game_state.document, "2");
                assert_eq!(actions_taken.len(), 1);
            },
            other => panic!("unexpected {:?}", other),
        },
        other => panic!("unexpected {:?}", other),
    }
    assert_eq!(driver.get_phase(), DriverPhase::Waiting);
    assert!(driver.begin_tick(Vec::new()).is_none());
    // the driver takes the next match
    driver.init_game(&vec![5, 6, 7]);
    assert_eq!(driver.get_ticks_left(), (2, 2));
    assert_eq!(sorted(driver.get_players_remaining()), vec![5, 6, 7]);
}

#[test]
fn remaining_players_only_become_fewer() {
    let mut driver = running(&[1, 2, 3, 4], 10);
    let mut before = driver.get_players_remaining().len();
    for id in [2u128, 2, 9, 4] {
        let killed = driver.notify_player_killed(id);
        assert_eq!(killed.get_player_id(), id);
        let actions = driver.begin_tick(Vec::new()).unwrap();
        driver.end_tick(GameState { document: "s".to_string() }, actions);
        let now = driver.get_players_remaining();
        assert!(now.len() <= before);
        assert!(now.iter().all(|id| driver.get_player_order().contains(id)));
        before = now.len();
    }
    assert_eq!(sorted(driver.get_players_remaining()), vec![1, 3]);
    assert!(driver.is_remaining(1) && !driver.is_remaining(2));
}

#[test]
fn kill_by_text() {
    let mut driver = running(&[0x936DA01F9ABD4D9D80C702AF85C822A8, 2], 10);
    assert!(driver.notify_player_killed_text("nobody").is_none());
    assert_eq!(driver.get_players_remaining().len(), 2);
    let killed = driver.notify_player_killed_text("936da01f-9abd-4d9d-80c7-02af85c822a8").expect("a uuid");
    assert_eq!(killed.get_player_id(), 0x936DA01F9ABD4D9D80C702AF85C822A8);
    assert_eq!(driver.get_players_remaining(), vec![2]);
    assert!(!driver.is_round_running());
}

#[test]
fn retries_stop_at_the_first_success() {
    let calls = Cell::new(0usize);
    let result: Result<usize, String> = trap_errors(MAX_TRIES, || {
        calls.set(calls.get() + 1);
        if calls.get() < 3 { Err("not yet".to_string()) } else { Ok(calls.get()) }
    });
    assert_eq!(result, Ok(3));
    assert_eq!(calls.get(), 3);
}

#[test]
fn retries_are_bounded() {
    for (max_tries, expected) in [(0usize, 1usize), (1, 1), (2, 2), (5, 5)] {
        let calls = Cell::new(0usize);
        let result: Result<(), usize> = trap_errors(max_tries, || {
            calls.set(calls.get() + 1);
            Err(calls.get())
        });
        assert_eq!(result, Err(expected));
        assert_eq!(calls.get(), expected);
    }
    let counted: (Result<(), u8>, usize) = trap_errors_counted(MAX_TRIES, || Err(1));
    assert_eq!(counted, (Err(1), 5));
    let counted: (Result<u8, ()>, usize) = trap_errors_counted(MAX_TRIES, || Ok(1));
    assert_eq!(counted, (Ok(1), 1));
    assert_eq!(MAX_TRIES, 5);
    assert!(should_retry(4, 5));
    assert!(!should_retry(5, 5));
    assert!(!should_retry(0, 0));
}

#[test]
fn lots_to_draw_from() {
    assert_eq!(directions(), vec![Direction::Up, Direction::Down, Direction::Left, Direction::Right]);
    let choices = weighted_actions(Direction::Left);
    assert_eq!(choices.len(), 3);
    assert!(matches!(choices[0], (TaggedRequest { tag: None, data: PlayerActionEnum::Move(MoveAction { direction: Direction::Left }) }, 5)));
    assert!(matches!(choices[1], (TaggedRequest { tag: None, data: PlayerActionEnum::Attack(AttackAction { direction: Direction::Left }) }, 5)));
    assert!(matches!(choices[2], (TaggedRequest { tag: None, data: PlayerActionEnum::DropWeapon }, 2)));
}

#[test]
fn tagged_requests_keep_their_tag() {
    let plain = TaggedRequest::new(AttackAction { direction: Direction::Down }).transpose();
    assert_eq!(plain.tag, None);
    assert!(matches!(plain.data, PlayerActionEnum::Attack(AttackAction { direction: Direction::Down })));
    let drop = TaggedRequest::new_tagged(DropWeaponAction {}, "t1".to_string()).transpose();
    assert_eq!(drop.tag.as_deref(), Some("t1"));
    assert!(matches!(drop.data, PlayerActionEnum::DropWeapon));
    let moved = TaggedRequest::new_tagged(MoveAction { direction: Direction::Right }, "t2".to_string()).transpose();
    assert_eq!(moved.tag.as_deref(), Some("t2"));
    assert!(matches!(moved.data, PlayerActionEnum::Move(MoveAction { direction: Direction::Right })));
}

#[test]
fn states_say_what_is_allowed() {
    for (state, registration, action) in [
        (ServerState::Registration, true, false),
        (ServerState::Initializing, false, false),
        (ServerState::Running, false, true),
        (ServerState::FatalError, false, false),
    ] {
        assert_eq!(state.can_change_registration(), registration);
        assert_eq!(state.can_send_action(), action);
    }
    for (state, registration, action) in [
        (Lifecycle::Registration, true, false),
        (Lifecycle::Initializing, false, false),
        (Lifecycle::Running, false, true),
        (Lifecycle::FatalError, false, false),
    ] {
        assert_eq!(state.can_change_registration(), registration);
        assert_eq!(state.can_send_action(), action);
    }
}
