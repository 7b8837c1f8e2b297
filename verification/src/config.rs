//! The settings of the server: each is read from the text that the
//! environment holds for it, and falls back to its default where the text
//! is missing or no value of the setting.
use vstd::prelude::*;
use vstd::string::StringExecFns;

verus! {

pub const DEFAULT_HOST: &'static str = "127.0.0.1";

pub const DEFAULT_PORT: u16 = 53700;

pub const DEFAULT_JWT_SECRET: &'static str = "secret";

pub const DEFAULT_LUA_FILE: &'static str = "lua/game.lua";

pub const DEFAULT_MIN_PLAYERS: usize = 2;

pub const DEFAULT_MAX_PLAYERS: usize = 8;

pub const DEFAULT_LOBBY_WAIT_SECONDS: u32 = 10;

pub const DEFAULT_TICK_PER_GAME: u32 = 180;

pub const DEFAULT_SECONDS_PER_TICK: u32 = 1;

/// The number that a text stands for when read as an unsigned decimal
/// number of 64 bits, if it is one.
pub uninterp spec fn decimal_value(text: Seq<char>) -> Option<u64>;

/// Calls `str::parse::<u64>`. Whether the text is a number, and which, are
/// functions of the text alone: they are what `decimal_value` names.
#[verifier::external_body]
fn parse_decimal(text: &str) -> (value: Option<u64>)
    ensures
        value == decimal_value(text@),
{
    text.parse::<u64>().ok()
}

/// The number that the text of a setting stands for, if the text is there
/// and is a number.
pub open spec fn number_in(raw: Option<&str>) -> Option<u64> {
    match raw {
        Some(text) => decimal_value(text@),
        None => None,
    }
}

/// The value of a setting that holds numbers up to `limit`: the number
/// read, or `default` where none was read or it is beyond `limit`.
pub open spec fn setting(number: Option<u64>, limit: u64, default: u64) -> u64 {
    match number {
        Some(value) => if value <= limit {
            value
        } else {
            default
        },
        None => default,
    }
}

/// A value raised to `least` where it is below.
pub open spec fn at_least(value: u64, least: u64) -> u64 {
    if value < least {
        least
    } else {
        value
    }
}

/// The value of a setting that holds numbers up to `limit` and is never
/// below `least`, from the number that was read for it.
pub fn setting_from(number: Option<u64>, limit: u64, default: u64, least: u64) -> (value: u64)
    ensures
        value == at_least(setting(number, limit, default), least),
{
    let value = match number {
        Some(value) => if value <= limit {
            value
        } else {
            default
        },
        None => default,
    };
    if value < least {
        least
    } else {
        value
    }
}

/// Reads the text of a setting as a number.
pub fn parse_with_warning(raw: Option<&str>) -> (number: Option<u64>)
    ensures
        number == number_in(raw),
{
    match raw {
        Some(text) => parse_decimal(text),
        None => None,
    }
}

/// The text of a setting, or `default` where there is none.
fn text_or(raw: Option<String>, default: &str) -> (text: String)
    ensures
        text@ == match raw {
            Some(given) => given@,
            None => default@,
        },
{
    match raw {
        Some(given) => given,
        None => String::from_str(default),
    }
}

/// The host to listen on.
pub fn get_host(raw: Option<String>) -> (host: String)
    ensures
        host@ == match raw {
            Some(given) => given@,
            None => DEFAULT_HOST@,
        },
{
    text_or(raw, DEFAULT_HOST)
}

/// The port to listen on.
pub fn get_port(raw: Option<&str>) -> (port: u16)
    ensures
        port == setting(number_in(raw), u16::MAX as u64, DEFAULT_PORT as u64),
{
    setting_from(parse_with_warning(raw), u16::MAX as u64, DEFAULT_PORT as u64, 0) as u16
}

/// Whether to serve over TLS: only where the text is `true`.
pub fn use_https(raw: Option<&str>) -> (enabled: bool)
    ensures
        enabled <==> raw is Some && raw->Some_0@ == "true"@,
{
    match raw {
        Some(text) => String::from_str(text) == String::from_str("true"),
        None => false,
    }
}

/// The file of the TLS private key, if one is set.
pub fn get_key_file(raw: Option<String>) -> (file: Option<String>)
    ensures
        file == raw,
{
    raw
}

/// The file of the TLS certificate chain, if one is set.
pub fn get_cert_file(raw: Option<String>) -> (file: Option<String>)
    ensures
        file == raw,
{
    raw
}

/// The secret that tokens are signed with.
pub fn get_jwt_secret(raw: Option<String>) -> (secret: String)
    ensures
        secret@ == match raw {
            Some(given) => given@,
            None => DEFAULT_JWT_SECRET@,
        },
{
    text_or(raw, DEFAULT_JWT_SECRET)
}

/// The file of the scripted engine.
pub fn get_lua_file(raw: Option<String>) -> (file: String)
    ensures
        file@ == match raw {
            Some(given) => given@,
            None => DEFAULT_LUA_FILE@,
        },
{
    text_or(raw, DEFAULT_LUA_FILE)
}

/// The players that a match needs: two at least.
pub fn get_min_players_needed(raw: Option<&str>) -> (players: usize)
    ensures
        players == at_least(setting(number_in(raw), usize::MAX as u64, DEFAULT_MIN_PLAYERS as u64), 2),
        players >= 2,
{
    setting_from(parse_with_warning(raw), usize::MAX as u64, DEFAULT_MIN_PLAYERS as u64, 2) as usize
}

/// The players that a match admits.
pub fn get_max_players_allowed(raw: Option<&str>) -> (players: usize)
    ensures
        players == setting(number_in(raw), usize::MAX as u64, DEFAULT_MAX_PLAYERS as u64),
{
    setting_from(parse_with_warning(raw), usize::MAX as u64, DEFAULT_MAX_PLAYERS as u64, 0) as usize
}

/// The seconds that the lobby waits once enough players are registered:
/// one at least.
pub fn get_lobby_wait_time_seconds(raw: Option<&str>) -> (seconds: u32)
    ensures
        seconds == at_least(setting(number_in(raw), u32::MAX as u64, DEFAULT_LOBBY_WAIT_SECONDS as u64), 1),
        seconds >= 1,
{
    setting_from(parse_with_warning(raw), u32::MAX as u64, DEFAULT_LOBBY_WAIT_SECONDS as u64, 1) as u32
}

/// The ticks of a match: thirty at least.
pub fn get_ticks_per_game(raw: Option<&str>) -> (ticks: u32)
    ensures
        ticks == at_least(setting(number_in(raw), u32::MAX as u64, DEFAULT_TICK_PER_GAME as u64), 30),
        ticks >= 30,
{
    setting_from(parse_with_warning(raw), u32::MAX as u64, DEFAULT_TICK_PER_GAME as u64, 30) as u32
}

/// The seconds between two ticks: one at least.
pub fn get_seconds_per_tick(raw: Option<&str>) -> (seconds: u32)
    ensures
        seconds == at_least(setting(number_in(raw), u32::MAX as u64, DEFAULT_SECONDS_PER_TICK as u64), 1),
        seconds >= 1,
{
    setting_from(parse_with_warning(raw), u32::MAX as u64, DEFAULT_SECONDS_PER_TICK as u64, 1) as u32
}

} // verus!
