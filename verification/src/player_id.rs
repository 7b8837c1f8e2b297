use vstd::prelude::*;
use crate::PlayerId;

verus! {

/// The text of a player's id: the id written as a UUID, as scripts and
/// clients see it.
pub uninterp spec fn uuid_text(id: PlayerId) -> Seq<char>;

/// The player's id that a text stands for, if it is the text of a UUID.
pub uninterp spec fn uuid_value(text: Seq<char>) -> Option<PlayerId>;

/// Calls `uuid::Uuid::from_u128` and then `to_string` on the result. The
/// text is a function of the id alone: it is what `uuid_text` names.
#[verifier::external_body]
pub(crate) fn format_uuid(id: PlayerId) -> (text: String)
    ensures
        text@ == uuid_text(id),
{
    uuid::Uuid::from_u128(id).to_string()
}

/// Calls `uuid::Uuid::parse_str` and, where it accepts the text, `as_u128`
/// on the result. Whether the text is accepted, and the id it stands for,
/// are functions of the text alone: they are what `uuid_value` names.
#[verifier::external_body]
pub(crate) fn parse_uuid(text: &str) -> (id: Option<PlayerId>)
    ensures
        id == uuid_value(text@),
{
    match uuid::Uuid::parse_str(text) {
        Ok(uuid) => Some(uuid.as_u128()),
        Err(_) => None,
    }
}

/// The text of a player's id.
pub fn player_id_text(id: PlayerId) -> (text: String)
    ensures
        text@ == uuid_text(id),
{
    format_uuid(id)
}

/// The player's id that a text stands for; `None` for a text that is not
/// the text of a UUID.
pub fn parse_player_id(text: &str) -> (id: Option<PlayerId>)
    ensures
        id == uuid_value(text@),
{
    parse_uuid(text)
}

/// The texts of the ids, in their order.
pub fn player_ids_text(ids: &Vec<PlayerId>) -> (texts: Vec<String>)
    ensures
        texts@.len() == ids@.len(),
        forall|i: int| 0 <= i < ids@.len() ==> (#[trigger] texts@[i])@ == uuid_text(ids@[i]),
{
    let mut texts: Vec<String> = Vec::new();
    let mut i: usize = 0;
    while i < ids.len()
        invariant
            i <= ids@.len(),
            texts@.len() == i,
            forall|j: int| 0 <= j < i ==> (#[trigger] texts@[j])@ == uuid_text(ids@[j]),
        decreases ids@.len() - i,
    {
        texts.push(format_uuid(ids[i]));
        i = i + 1;
    }
    texts
}

} // verus!
