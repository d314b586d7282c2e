//! Identifiers, from the `uuid` crate, held as the 128-bit integer a UUID is.

use vstd::prelude::*;

verus! {

/// The integer form of the UUID that `s` spells, if it spells one.
pub uninterp spec fn parsed_uuid(s: Seq<char>) -> Option<u128>;

/// Relies on `uuid::Uuid::new_v4` and `Uuid::as_u128`: a random identifier,
/// nothing promised of its value.
#[verifier::external_body]
pub(crate) fn new_id() -> (r: u128) {
    uuid::Uuid::new_v4().as_u128()
}

/// Relies on `uuid::Uuid::parse_str` and `Uuid::as_u128`: the UUID that `s`
/// spells, as an integer, or `None` when `s` is no UUID. The result depends
/// on the text alone.
#[verifier::external_body]
pub(crate) fn parse_id(s: &str) -> (r: Option<u128>)
    ensures
        r == parsed_uuid(s@),
{
    match uuid::Uuid::parse_str(s) {
        Ok(u) => Some(u.as_u128()),
        Err(_) => None,
    }
}

} // verus!
