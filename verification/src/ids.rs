//! Identity ids: 128-bit values with a fixed textual form.

use vstd::prelude::*;

verus! {

/// The hyphenated lowercase text of an id; names what formatting a
/// `uuid::Uuid` built from the id yields.
pub uninterp spec fn uuid_text(id: u128) -> Seq<char>;

/// Which id, if any, a text names; names what `uuid::Uuid::parse_str`
/// yields.
pub uninterp spec fn uuid_of(s: Seq<char>) -> Option<u128>;

/// Relies on uuid::Uuid::new_v4: a random id; nothing is promised of it.
#[verifier::external_body]
pub(crate) fn new_user_id() -> u128 {
    uuid::Uuid::new_v4().as_u128()
}

/// Relies on uuid::Uuid::from_u128 and its Display form (hyphenated,
/// lowercase), and on Uuid::parse_str accepting that form back.
#[verifier::external_body]
pub(crate) fn format_user_id(id: u128) -> (r: String)
    ensures
        r@ == uuid_text(id),
        uuid_of(r@) == Some(id),
{
    uuid::Uuid::from_u128(id).to_string()
}

/// Relies on uuid::Uuid::parse_str: yields the id a text names, or
/// nothing when it names none.
#[verifier::external_body]
pub(crate) fn parse_user_id(s: &str) -> (r: Option<u128>)
    ensures
        r == uuid_of(s@),
{
    match uuid::Uuid::parse_str(s) {
        Ok(u) => Some(u.as_u128()),
        Err(_) => None,
    }
}

} // verus!
