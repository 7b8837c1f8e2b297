use game_server::config::{
    get_cert_file, get_host, get_jwt_secret, get_key_file, get_lobby_wait_time_seconds, get_lua_file,
    get_max_players_allowed, get_min_players_needed, get_port, get_seconds_per_tick, get_ticks_per_game,
    parse_with_warning, setting_from, use_https, DEFAULT_LUA_FILE,
};

#[test]
fn port_defaults_and_bounds() {
    assert_eq!(get_port(None), 53700);
    assert_eq!(get_port(Some("8080")), 8080);
    assert_eq!(get_port(Some("0")), 0);
    assert_eq!(get_port(Some("65535")), 65535);
    assert_eq!(get_port(Some("65536")), 53700);
    assert_eq!(get_port(Some("http")), 53700);
    assert_eq!(get_port(Some("-1")), 53700);
    assert_eq!(get_port(Some("")), 53700);
    assert_eq!(get_port(Some(" 80")), 53700);
    assert_eq!(get_port(Some("99999999999999999999999")), 53700);
}

#[test]
fn https_only_when_true() {
    assert!(use_https(Some("true")));
    assert!(!use_https(Some("false")));
    assert!(!use_https(Some("TRUE")));
    assert!(!use_https(Some("1")));
    assert!(!use_https(Some("")));
    assert!(!use_https(None));
}

#[test]
fn text_settings_fall_back() {
    assert_eq!(get_host(None), "127.0.0.1");
    assert_eq!(get_host(Some("0.0.0.0".to_string())), "0.0.0.0");
    assert_eq!(get_jwt_secret(None), "secret");
    assert_eq!(get_jwt_secret(Some("s3".to_string())), "s3");
    assert_eq!(get_lua_file(None), DEFAULT_LUA_FILE);
    assert_eq!(get_lua_file(None), "lua/game.lua");
    assert_eq!(get_lua_file(Some("x.lua".to_string())), "x.lua");
    assert_eq!(get_key_file(None), None);
    assert_eq!(get_key_file(Some("k.pem".to_string())), Some("k.pem".to_string()));
    assert_eq!(get_cert_file(Some("c.pem".to_string())), Some("c.pem".to_string()));
}

#[test]
fn min_players_is_two_at_least() {
    assert_eq!(get_min_players_needed(None), 2);
    assert_eq!(get_min_players_needed(Some("0")), 2);
    assert_eq!(get_min_players_needed(Some("1")), 2);
    assert_eq!(get_min_players_needed(Some("2")), 2);
    assert_eq!(get_min_players_needed(Some("3")), 3);
    assert_eq!(get_min_players_needed(Some("three")), 2);
}

#[test]
fn max_players_is_taken_as_given() {
    assert_eq!(get_max_players_allowed(None), 8);
    assert_eq!(get_max_players_allowed(Some("0")), 0);
    assert_eq!(get_max_players_allowed(Some("4")), 4);
    assert_eq!(get_max_players_allowed(Some("4.5")), 8);
}

#[test]
fn lobby_wait_is_one_at_least() {
    assert_eq!(get_lobby_wait_time_seconds(None), 10);
    assert_eq!(get_lobby_wait_time_seconds(Some("0")), 1);
    assert_eq!(get_lobby_wait_time_seconds(Some("3")), 3);
    assert_eq!(get_lobby_wait_time_seconds(Some("4294967295")), 4294967295);
    assert_eq!(get_lobby_wait_time_seconds(Some("4294967296")), 10);
}

#[test]
fn ticks_per_game_is_thirty_at_least() {
    assert_eq!(get_ticks_per_game(None), 180);
    assert_eq!(get_ticks_per_game(Some("5")), 30);
    assert_eq!(get_ticks_per_game(Some("29")), 30);
    assert_eq!(get_ticks_per_game(Some("30")), 30);
    assert_eq!(get_ticks_per_game(Some("31")), 31);
    assert_eq!(get_ticks_per_game(Some("x")), 180);
}

#[test]
fn seconds_per_tick_is_one_at_least() {
    assert_eq!(get_seconds_per_tick(None), 1);
    assert_eq!(get_seconds_per_tick(Some("0")), 1);
    assert_eq!(get_seconds_per_tick(Some("7")), 7);
}

#[test]
fn numbers_are_read_as_decimals() {
    assert_eq!(parse_with_warning(None), None);
    assert_eq!(parse_with_warning(Some("42")), Some(42));
    assert_eq!(parse_with_warning(Some("+42")), Some(42));
    assert_eq!(parse_with_warning(Some("007")), Some(7));
    assert_eq!(parse_with_warning(Some("18446744073709551615")), Some(u64::MAX));
    assert_eq!(parse_with_warning(Some("18446744073709551616")), None);
    assert_eq!(parse_with_warning(Some("0x10")), None);
    assert_eq!(parse_with_warning(Some("4 ")), None);
}

#[test]
fn settings_keep_their_bounds() {
    assert_eq!(setting_from(None, 10, 5, 0), 5);
    assert_eq!(setting_from(Some(10), 10, 5, 0), 10);
    assert_eq!(setting_from(Some(11), 10, 5, 0), 5);
    assert_eq!(setting_from(Some(1), 10, 5, 3), 3);
    assert_eq!(setting_from(None, 10, 2, 3), 3);
}
