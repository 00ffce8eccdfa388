//! Universally unique identifiers in their written forms.

use vstd::prelude::*;

verus! {

/// The identifier that a text spells, as one number, if it spells one.
pub uninterp spec fn uuid_value(text: Seq<char>) -> Option<u128>;

/// `Uuid::parse_str` reads an identifier in any of its written forms, and `Uuid::as_u128` gives
/// it as one number.
#[verifier::external_body]
pub(crate) fn parse_uuid(text: &str) -> (value: Option<u128>)
    ensures
        value == uuid_value(text@),
{
    match uuid::Uuid::parse_str(text) {
        Ok(id) => Some(id.as_u128()),
        Err(_) => None,
    }
}

} // verus!
