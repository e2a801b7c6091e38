//! Identifiers: 128-bit values, drawn at random when an entity is created and
//! read back from their hyphenated text form when rows are decoded.
use vstd::prelude::*;

verus! {

/// What `uuid::Uuid::parse_str` yields for a text, as a 128-bit value.
pub uninterp spec fn uuid_text_value(s: Seq<char>) -> Option<u128>;

/// Relies on `uuid::Uuid::new_v4`: a fresh random identifier. Nothing is
/// promised of its value.
#[verifier::external_body]
pub(crate) fn fresh_id() -> (r: u128) {
    uuid::Uuid::new_v4().as_u128()
}

/// Relies on `uuid::Uuid::parse_str`: the identifier written in `s`, or `None`
/// where `s` is no identifier. The empty text is none.
#[verifier::external_body]
pub(crate) fn parse_id(s: &str) -> (r: Option<u128>)
    ensures
        r == uuid_text_value(s@),
        s@.len() == 0 ==> r is None,
{
    uuid::Uuid::parse_str(s).ok().map(|u| u.as_u128())
}

} // verus!
