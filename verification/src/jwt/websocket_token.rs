//! Finds the token of a request that opens a session: browsers cannot set
//! an authorization header on such a request, so a client may hand its
//! token over as one of the subprotocols it offers.
use vstd::prelude::*;
use vstd::std_specs::iter::IteratorSpec;
use vstd::string::{StrSliceExecFns, StringExecFns};
use crate::errors::service_error::ServiceError;
use crate::WS_PROTOCOL;

verus! {

/// A blank: a space or a tab.
pub open spec fn is_blank(c: char) -> bool {
    c == ' ' || c == '\t'
}

/// A text without the blanks at its start and at its end.
pub open spec fn trimmed(text: Seq<char>) -> Seq<char>
    decreases text.len(),
{
    if text.len() > 0 && is_blank(text[0]) {
        trimmed(text.subrange(1, text.len() as int))
    } else if text.len() > 0 && is_blank(text[text.len() - 1]) {
        trimmed(text.subrange(0, text.len() - 1))
    } else {
        text
    }
}

/// The place of the first comma in a text; the length of the text where it
/// has none.
pub open spec fn first_comma(text: Seq<char>) -> int
    decreases text.len(),
{
    if text.len() == 0 || text[0] == ',' {
        0
    } else {
        1 + first_comma(text.subrange(1, text.len() as int))
    }
}

/// The parts of a text between its commas.
pub open spec fn parts(text: Seq<char>) -> Seq<Seq<char>>
    decreases text.len(),
{
    let comma = first_comma(text);
    if 0 <= comma < text.len() {
        seq![text.subrange(0, comma)] + parts(text.subrange(comma + 1, text.len() as int))
    } else {
        seq![text]
    }
}

/// The subprotocols that the text of a header offers: its parts between
/// commas, each without the blanks around it.
pub open spec fn offered(header: Seq<char>) -> Seq<Seq<char>> {
    parts(header).map_values(|part: Seq<char>| trimmed(part))
}

/// The place of the first of `protocols` that is not the fixed name of this
/// server's subprotocol; the length of `protocols` where there is none.
pub open spec fn token_place_in(protocols: Seq<Seq<char>>) -> int
    decreases protocols.len(),
{
    if protocols.len() == 0 {
        0
    } else if protocols[0] != WS_PROTOCOL@ {
        0
    } else {
        1 + token_place_in(protocols.subrange(1, protocols.len() as int))
    }
}

/// The place of the token lies within the subprotocols or at their end.
pub proof fn token_place_in_bounds(protocols: Seq<Seq<char>>)
    ensures
        0 <= token_place_in(protocols) <= protocols.len(),
        token_place_in(protocols) < protocols.len() ==> protocols[token_place_in(protocols)] != WS_PROTOCOL@,
        forall|j: int| 0 <= j < token_place_in(protocols) ==> protocols[j] == WS_PROTOCOL@,
    decreases protocols.len(),
{
    if protocols.len() > 0 && protocols[0] == WS_PROTOCOL@ {
        let rest = protocols.subrange(1, protocols.len() as int);
        token_place_in_bounds(rest);
        assert forall|j: int| 0 <= j < token_place_in(protocols) implies protocols[j] == WS_PROTOCOL@ by {
            if j > 0 {
                assert(rest[j - 1] == protocols[j]);
            }
        }
        if token_place_in(protocols) < protocols.len() {
            assert(rest[token_place_in(rest)] == protocols[token_place_in(protocols)]);
        }
    }
}

/// The token that the text of a header hands over: the first subprotocol
/// it offers that is not the fixed name of this server's subprotocol.
pub open spec fn offered_token(header: Seq<char>) -> Option<Seq<char>> {
    let protocols = offered(header);
    if token_place_in(protocols) < protocols.len() {
        Some(protocols[token_place_in(protocols)])
    } else {
        None
    }
}

/// The first comma of a text is where no comma comes before and a comma,
/// or the end, stands.
pub proof fn first_comma_is_first(text: Seq<char>, place: int)
    requires
        0 <= place <= text.len(),
        forall|j: int| 0 <= j < place ==> text[j] != ',',
        place < text.len() ==> text[place] == ',',
    ensures
        first_comma(text) == place,
    decreases text.len(),
{
    if place > 0 {
        let rest = text.subrange(1, text.len() as int);
        assert(text[0] != ',');
        assert forall|j: int| 0 <= j < place - 1 implies rest[j] != ',' by {
            assert(rest[j] == text[j + 1]);
        }
        if place < text.len() {
            assert(rest[place - 1] == text[place]);
        }
        first_comma_is_first(rest, place - 1);
    }
}

/// The first comma of a text lies within the text or at its end, and no
/// comma comes before it.
pub proof fn first_comma_bounds(text: Seq<char>)
    ensures
        0 <= first_comma(text) <= text.len(),
        forall|j: int| 0 <= j < first_comma(text) ==> text[j] != ',',
        first_comma(text) < text.len() ==> text[first_comma(text)] == ',',
    decreases text.len(),
{
    if text.len() > 0 && text[0] != ',' {
        let rest = text.subrange(1, text.len() as int);
        first_comma_bounds(rest);
        assert forall|j: int| 0 <= j < first_comma(text) implies text[j] != ',' by {
            if j > 0 {
                assert(rest[j - 1] == text[j]);
            }
        }
        if first_comma(text) < text.len() {
            assert(rest[first_comma(rest)] == text[first_comma(text)]);
        }
    }
}

/// A text has one part more than it has commas, so one at least, and no
/// part holds a comma.
pub proof fn parts_hold_no_comma(text: Seq<char>)
    ensures
        parts(text).len() >= 1,
        forall|k: int, j: int|
            0 <= k < parts(text).len() && 0 <= j < parts(text)[k].len() ==> parts(text)[k][j] != ',',
    decreases text.len(),
{
    first_comma_bounds(text);
    let comma = first_comma(text);
    if comma < text.len() {
        let rest = text.subrange(comma + 1, text.len() as int);
        parts_hold_no_comma(rest);
        assert forall|k: int, j: int|
            0 <= k < parts(text).len() && 0 <= j < parts(text)[k].len() implies parts(text)[k][j] != ',' by {
            if k == 0 {
                assert(parts(text)[0] == text.subrange(0, comma));
                assert(parts(text)[0][j] == text[j]);
            } else {
                assert(parts(text)[k] == parts(rest)[k - 1]);
            }
        }
    }
}

/// A trimmed text is a stretch of the text it came from, and has no blank
/// at its start nor at its end.
pub proof fn trimmed_is_bare(text: Seq<char>)
    ensures
        exists|from: int, to: int| 0 <= from <= to <= text.len() && trimmed(text) == text.subrange(from, to),
        trimmed(text).len() > 0 ==> !is_blank(trimmed(text)[0]) && !is_blank(
            trimmed(text)[trimmed(text).len() - 1],
        ),
    decreases text.len(),
{
    if text.len() > 0 && is_blank(text[0]) {
        let rest = text.subrange(1, text.len() as int);
        trimmed_is_bare(rest);
        let (from, to) = choose|from: int, to: int|
            0 <= from <= to <= rest.len() && trimmed(rest) == rest.subrange(from, to);
        assert(rest.subrange(from, to) =~= text.subrange(from + 1, to + 1));
    } else if text.len() > 0 && is_blank(text[text.len() - 1]) {
        let rest = text.subrange(0, text.len() - 1);
        trimmed_is_bare(rest);
        let (from, to) = choose|from: int, to: int|
            0 <= from <= to <= rest.len() && trimmed(rest) == rest.subrange(from, to);
        assert(rest.subrange(from, to) =~= text.subrange(from, to));
    } else {
        assert(text =~= text.subrange(0, text.len() as int));
    }
}

/// The characters of a text.
fn chars_of(text: &str) -> (chars: Vec<char>)
    ensures
        chars@ == text@,
{
    broadcast use vstd::string::axiom_spec_iter;

    let mut chars: Vec<char> = Vec::new();
    let iter = text.chars();
    let ghost all = iter.remaining();
    for c in it: iter
        invariant
            it.seq() == all,
            chars@.len() == it.index(),
            forall|j: int| 0 <= j < chars@.len() ==> chars@[j] == all[j],
    {
        chars.push(c);
    }
    assert(chars@ =~= all);
    chars
}

/// The part of `text` from `from` up to `to`, without the blanks around
/// it.
fn trimmed_part(text: &str, chars: &Vec<char>, from: usize, to: usize) -> (part: String)
    requires
        chars@ == text@,
        from <= to <= chars@.len(),
    ensures
        part@ == trimmed(text@.subrange(from as int, to as int)),
{
    let mut a = from;
    let mut b = to;
    while a < b && (chars[a] == ' ' || chars[a] == '\t')
        invariant
            chars@ == text@,
            from <= a <= b <= to <= chars@.len(),
            trimmed(text@.subrange(from as int, to as int)) == trimmed(text@.subrange(a as int, b as int)),
        decreases b - a,
    {
        assert(text@.subrange(a as int, b as int).subrange(1, b - a) =~= text@.subrange(a + 1, b as int));
        a = a + 1;
    }
    while a < b && (chars[b - 1] == ' ' || chars[b - 1] == '\t')
        invariant
            chars@ == text@,
            from <= a <= b <= to <= chars@.len(),
            a < b ==> !is_blank(text@[a as int]),
            trimmed(text@.subrange(from as int, to as int)) == trimmed(text@.subrange(a as int, b as int)),
        decreases b - a,
    {
        assert(text@.subrange(a as int, b as int).subrange(0, b - a - 1) =~= text@.subrange(a as int, b - 1));
        b = b - 1;
    }
    assert(trimmed(text@.subrange(a as int, b as int)) == text@.subrange(a as int, b as int));
    String::from_str(text.substring_char(a, b))
}

/// The subprotocols that the text of a header offers, in their order.
pub fn offered_protocols(header: &str) -> (protocols: Vec<String>)
    ensures
        protocols@.map_values(|protocol: String| protocol@) == offered(header@),
{
    let chars = chars_of(header);
    let mut protocols: Vec<String> = Vec::new();
    let mut start: usize = 0;
    let mut i: usize = 0;
    let ghost views = |protocol: String| protocol@;
    let ghost trim = |part: Seq<char>| trimmed(part);
    assert(header@.subrange(0, header@.len() as int) =~= header@);
    assert(protocols@.map_values(views) + parts(header@).map_values(trim) =~= offered(header@));
    while i < chars.len()
        invariant
            chars@ == header@,
            start <= i <= chars@.len(),
            views == |protocol: String| protocol@,
            trim == |part: Seq<char>| trimmed(part),
            forall|j: int| start <= j < i ==> header@[j] != ',',
            protocols@.map_values(views) + parts(header@.subrange(start as int, header@.len() as int)).map_values(
                trim,
            ) == offered(header@),
        decreases chars@.len() - i,
    {
        if chars[i] == ',' {
            let part = trimmed_part(header, &chars, start, i);
            proof {
                let rest = header@.subrange(start as int, header@.len() as int);
                assert forall|j: int| 0 <= j < i - start implies rest[j] != ',' by {
                    assert(rest[j] == header@[start + j]);
                }
                assert(rest[i - start] == header@[i as int]);
                first_comma_is_first(rest, i - start);
                assert(rest.subrange(0, i - start) =~= header@.subrange(start as int, i as int));
                assert(rest.subrange(i - start + 1, rest.len() as int) =~= header@.subrange(
                    i + 1,
                    header@.len() as int,
                ));
                let after = parts(header@.subrange(i + 1, header@.len() as int));
                assert(parts(rest) == seq![header@.subrange(start as int, i as int)] + after);
                assert(parts(rest).map_values(trim) =~= seq![part@] + after.map_values(trim));
                assert(protocols@.push(part).map_values(views) =~= protocols@.map_values(views).push(part@));
                assert(protocols@.map_values(views).push(part@) + after.map_values(trim) =~= protocols@.map_values(
                    views,
                ) + (seq![part@] + after.map_values(trim)));
            }
            protocols.push(part);
            start = i + 1;
        }
        i = i + 1;
    }
    let part = trimmed_part(header, &chars, start, i);
    proof {
        let rest = header@.subrange(start as int, header@.len() as int);
        assert forall|j: int| 0 <= j < rest.len() implies rest[j] != ',' by {
            assert(rest[j] == header@[start + j]);
        }
        first_comma_is_first(rest, rest.len() as int);
        assert(parts(rest) == seq![rest]);
        assert(parts(rest).map_values(trim) =~= seq![part@]);
        assert(protocols@.push(part).map_values(views) =~= protocols@.map_values(views).push(part@));
        assert(protocols@.map_values(views).push(part@) =~= protocols@.map_values(views) + seq![part@]);
    }
    protocols.push(part);
    protocols
}

/// The place of the first text in `protocols` that is not the fixed name
/// of this server's subprotocol; the length of `protocols` where there is
/// none.
pub open spec fn token_place(protocols: Seq<String>) -> int {
    token_place_in(protocols.map_values(|protocol: String| protocol@))
}

/// The token that a client handed over among the subprotocols it offered
/// when it opened a session: the first of them that is not the fixed name
/// of this server's subprotocol. Where there is none, the token is missing.
pub fn websocket_token(protocols: Vec<String>) -> (token: Result<String, ServiceError>)
    ensures
        token_place(protocols@) < protocols@.len() ==> token is Ok && token->Ok_0@ == protocols@[token_place(
            protocols@,
        )]@,
        token_place(protocols@) >= protocols@.len() ==> token matches Err(ServiceError::MissingWebsocketJWT),
{
    let fixed = String::from_str(WS_PROTOCOL);
    let ghost texts = protocols@.map_values(|protocol: String| protocol@);
    let mut i: usize = 0;
    assert(texts.subrange(0, texts.len() as int) =~= texts);
    while i < protocols.len()
        invariant
            i <= protocols@.len(),
            fixed@ == WS_PROTOCOL@,
            texts == protocols@.map_values(|protocol: String| protocol@),
            token_place_in(texts) == i + token_place_in(texts.subrange(i as int, texts.len() as int)),
        decreases protocols@.len() - i,
    {
        let ghost rest = texts.subrange(i as int, texts.len() as int);
        assert(rest[0] == protocols@[i as int]@);
        assert(rest.subrange(1, rest.len() as int) =~= texts.subrange(i + 1, texts.len() as int));
        if protocols[i] != fixed {
            return Ok(protocols[i].clone());
        }
        i = i + 1;
    }
    assert(texts.subrange(i as int, texts.len() as int).len() == 0);
    Err(ServiceError::MissingWebsocketJWT)
}

/// The token that a client handed over in the text of the header by which
/// it offers its subprotocols; where the header offers nothing but the
/// fixed name, the token is missing.
pub fn websocket_token_in(header: &str) -> (token: Result<String, ServiceError>)
    ensures
        match offered_token(header@) {
            Some(text) => token is Ok && token->Ok_0@ == text,
            None => token matches Err(ServiceError::MissingWebsocketJWT),
        },
{
    let protocols = offered_protocols(header);
    proof {
        let texts = protocols@.map_values(|protocol: String| protocol@);
        assert(texts == offered(header@));
        assert(texts.len() == protocols@.len());
        token_place_in_bounds(texts);
        if token_place_in(texts) < texts.len() {
            assert(texts[token_place_in(texts)] == protocols@[token_place_in(texts)]@);
        }
    }
    websocket_token(protocols)
}

/// What a request holds under one header.
#[derive(Debug)]
pub enum Header<T> {
    /// The request has no such header.
    Missing,
    /// The header is there and cannot be read; the text says why.
    Unreadable(String),
    /// The header is there and holds this.
    Given(T),
}

/// The token of a request that opens a session, from what the request
/// holds as bearer authorization and what it offers as subprotocols. A
/// bearer token is taken as it is. Without one, the token is looked for
/// among the subprotocols, as [`websocket_token_in`] does; subprotocols that
/// cannot be read are a parse error. Without subprotocols, an
/// authorization that cannot be read is an extractor error, and a request
/// with neither header lacks its token.
pub fn request_token(authorization: Header<String>, protocols: Header<String>) -> (token: Result<
    String,
    ServiceError,
>)
    ensures
        match (authorization, protocols) {
            (Header::Given(bearer), _) => token == Ok::<String, ServiceError>(bearer),
            (_, Header::Given(header)) => match offered_token(header@) {
                Some(text) => token is Ok && token->Ok_0@ == text,
                None => token matches Err(ServiceError::MissingWebsocketJWT),
            },
            (_, Header::Unreadable(why)) => token == Err::<String, ServiceError>(
                ServiceError::WebsocketJWTParseError(why),
            ),
            (Header::Unreadable(why), Header::Missing) => token == Err::<String, ServiceError>(
                ServiceError::JWTExtractorError(why),
            ),
            (Header::Missing, Header::Missing) => token matches Err(ServiceError::MissingWebsocketJWT),
        },
{
    match authorization {
        Header::Given(bearer) => Ok(bearer),
        Header::Unreadable(why) => match protocols {
            Header::Given(header) => websocket_token_in(header.as_str()),
            Header::Unreadable(unread) => Err(ServiceError::WebsocketJWTParseError(unread)),
            Header::Missing => Err(ServiceError::JWTExtractorError(why)),
        },
        Header::Missing => match protocols {
            Header::Given(header) => websocket_token_in(header.as_str()),
            Header::Unreadable(unread) => Err(ServiceError::WebsocketJWTParseError(unread)),
            Header::Missing => Err(ServiceError::MissingWebsocketJWT),
        },
    }
}

} // verus!
