use vstd::prelude::*;
use vstd::string::StringExecFns;
use crate::jwt::audience::Audience;
use crate::jwt::jwt_data::JWTPlayerData;
use crate::PlayerId;

verus! {

/// The issuer written into every token and demanded of every token.
pub const JWT_ISSUER: &'static str = "game-server";

/// The default life of a token, in minutes.
pub const JWT_EXPIRATION_MIN: i64 = 10;

/// The seconds by which a token may be past its end and still be taken.
pub const JWT_LEEWAY_SECS: u64 = 15;

/// What is demanded of a token at an endpoint. Whoever checks a token
/// hands these demands to the check.
#[derive(Debug)]
pub struct TokenValidation {
    /// The token must not be past its end.
    pub validate_exp: bool,
    /// The seconds by which it may be past its end after all.
    pub leeway: u64,
    /// The audiences of which the token must name one.
    pub aud: Vec<String>,
    /// The issuer that the token must name.
    pub iss: String,
}

/// What the endpoint of the audience `A` demands of a token: it names the
/// issuer of this server and the audience `A`, and has not ended more than
/// the leeway ago.
pub fn validation<A: Audience>() -> (demands: TokenValidation)
    ensures
        demands.validate_exp,
        demands.leeway == JWT_LEEWAY_SECS,
        demands.aud@.len() == 1,
        demands.aud@[0]@ == A::text(),
        demands.iss@ == JWT_ISSUER@,
{
    TokenValidation {
        validate_exp: true,
        leeway: JWT_LEEWAY_SECS,
        aud: A::accepts(),
        iss: String::from_str(JWT_ISSUER),
    }
}

/// A length of time as a token's life is asked for.
#[derive(Debug, Clone, Copy, PartialEq, Eq, Structural)]
pub enum TokenInterval {
    Seconds(i32),
    Days(i32),
    Months(i32),
}

/// The days that a token lives when the given length of time is asked
/// for: a count of seconds and a count of days are both taken as that many
/// days, a count of months as thirty days each.
pub fn token_life_days(interval: TokenInterval) -> (days: i64)
    ensures
        days == match interval {
            TokenInterval::Seconds(seconds) => seconds as int,
            TokenInterval::Days(days) => days as int,
            TokenInterval::Months(months) => months * 30,
        },
{
    match interval {
        TokenInterval::Seconds(seconds) => seconds as i64,
        TokenInterval::Days(days) => days as i64,
        TokenInterval::Months(months) => (months as i64) * 30,
    }
}

/// The seconds of a day.
pub const SECONDS_PER_DAY: i64 = 86400;

/// The seconds that a token lives when the given length of time is asked
/// for.
pub fn token_life_seconds(interval: TokenInterval) -> (seconds: i64)
    ensures
        seconds == SECONDS_PER_DAY * match interval {
            TokenInterval::Seconds(seconds) => seconds as int,
            TokenInterval::Days(days) => days as int,
            TokenInterval::Months(months) => months * 30,
        },
{
    let days = token_life_days(interval);
    assert(-64424509440 <= days <= 64424509440);
    days * SECONDS_PER_DAY
}

/// The id that a new token names: the one given, or else the fresh one;
/// and whether the fresh one was taken.
pub fn token_id(given: Option<PlayerId>, fresh: PlayerId) -> (id: (PlayerId, bool))
    ensures
        id.0 == match given {
            Some(id) => id,
            None => fresh,
        },
        id.1 <==> given is None,
{
    match given {
        Some(id) => (id, false),
        None => (fresh, true),
    }
}

/// The claims of a bearer token: who issued it, whom it names, which
/// endpoint it opens, when it was issued and when it ends, and the data it
/// carries about its subject.
#[derive(Debug)]
pub struct JWTToken<T> {
    pub iss: String,
    pub sub: PlayerId,
    pub aud: String,
    pub iat: i64,
    pub exp: i64,
    pub user_data: T,
}

impl<T> JWTToken<T> {
    /// The claims of a token for `subject` and the audience `A`, issued at
    /// `now` and ending `expires_in` seconds later (both in seconds of UTC).
    pub fn new<A: Audience>(subject: PlayerId, now: i64, expires_in: i64, user_data: T) -> (token: Self)
        requires
            i64::MIN <= now + expires_in <= i64::MAX,
        ensures
            token.iss@ == JWT_ISSUER@,
            token.sub == subject,
            token.aud@ == A::text(),
            token.iat == now,
            token.exp == now + expires_in,
            token.user_data == user_data,
    {
        JWTToken {
            iss: String::from_str(JWT_ISSUER),
            sub: subject,
            aud: A::get_name(),
            iat: now,
            exp: now + expires_in,
            user_data,
        }
    }

    /// The claims of a token as [`JWTToken::new`] makes them, where the
    /// token's end can be written in 64 bits; `None` where it cannot.
    pub fn new_checked<A: Audience>(subject: PlayerId, now: i64, expires_in: i64, user_data: T) -> (token: Option<
        Self,
    >)
        ensures
            token is Some <==> i64::MIN <= now + expires_in <= i64::MAX,
            token is Some ==> {
                let token = token->Some_0;
                &&& token.iss@ == JWT_ISSUER@
                &&& token.sub == subject
                &&& token.aud@ == A::text()
                &&& token.iat == now
                &&& token.exp == now + expires_in
                &&& token.user_data == user_data
            },
    {
        match now.checked_add(expires_in) {
            Some(_) => Some(Self::new::<A>(subject, now, expires_in, user_data)),
            None => None,
        }
    }

    pub fn get_id(&self) -> (id: PlayerId)
        ensures
            id == self.sub,
    {
        self.sub
    }

    pub fn get_data(&self) -> (data: &T)
        ensures
            *data == self.user_data,
    {
        &self.user_data
    }

    pub fn into_data(self) -> (data: T)
        ensures
            data == self.user_data,
    {
        self.user_data
    }
}

/// The token of a player.
pub type PlayerToken = JWTToken<JWTPlayerData>;

/// The token of a viewer.
pub type ViewerToken = JWTToken<()>;

} // verus!
