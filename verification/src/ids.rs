//! Opaque 128-bit identifiers of users and sessions, and their text form.

use vstd::prelude::*;
use uuid::Uuid;

verus! {

/// The identifier that a piece of text denotes as a UUID, if any.
pub uninterp spec fn id_of_text(text: Seq<char>) -> Option<u128>;

/// The hyphenated lower-case text of an identifier.
pub uninterp spec fn text_of_id(id: u128) -> Seq<char>;

/// `Uuid::now_v7` of uuid: a fresh time-ordered identifier. It depends on
/// the clock and on random bits, so nothing is claimed of its value.
#[verifier::external_body]
pub(crate) fn fresh_id() -> (id: u128) {
    Uuid::now_v7().as_u128()
}

/// `Uuid::parse_str` of uuid: the identifier that the text denotes, `None`
/// where the parser refuses it.
#[verifier::external_body]
pub(crate) fn parse_uuid(text: &str) -> (id: Option<u128>)
    ensures
        id == id_of_text(text@),
{
    match Uuid::parse_str(text) {
        Ok(uuid) => Some(uuid.as_u128()),
        Err(_) => None,
    }
}

/// The `Display` form of `Uuid` of uuid: the hyphenated lower-case text of
/// the identifier, which parses back to the same identifier.
#[verifier::external_body]
pub(crate) fn uuid_text(id: u128) -> (text: String)
    ensures
        text@ == text_of_id(id),
        id_of_text(text@) == Some(id),
{
    Uuid::from_u128(id).to_string()
}

/// Reads an identifier from its text form.
pub fn parse_id(text: &str) -> (id: Option<u128>)
    ensures
        id == id_of_text(text@),
{
    parse_uuid(text)
}

/// Writes an identifier in its text form. Reading the text gives the
/// identifier back.
pub fn id_text(id: u128) -> (text: String)
    ensures
        text@ == text_of_id(id),
        id_of_text(text@) == Some(id),
{
    uuid_text(id)
}

} // verus!
