//! Trusted bindings to the `uuid` crate, used for the two places where
//! the library deals in textual or freshly drawn 128-bit identifiers.

use vstd::prelude::*;

verus! {

/// The 128-bit value, if any, that `uuid::Uuid::parse_str` reads out of
/// a string.  The accepted shapes (simple, hyphenated, braced, urn)
/// take pages to state, but the outcome depends on the characters
/// alone, so it is given a name rather than spelled out.
pub uninterp spec fn uuid_parse(s: Seq<char>) -> Option<u128>;

/// Relies on `uuid::Uuid::parse_str` (and `Uuid::as_u128`): whether a
/// string denotes an identifier, and which one, is a function of the
/// characters alone.
#[verifier::external_body]
pub(crate) fn parse_uuid_str(s: &str) -> (r: Option<u128>)
    ensures
        r == uuid_parse(s@),
{
    match uuid::Uuid::parse_str(s) {
        Ok(u) => Some(u.as_u128()),
        Err(_) => None,
    }
}

/// Relies on `uuid::Uuid::new_v4` (and `Uuid::as_u128`): a randomly
/// drawn identifier.  Nothing is promised about the random bits; the
/// version nibble is 4 and the variant bits are the RFC 9562 ones,
/// which `new_v4` masks in unconditionally.
#[verifier::external_body]
pub(crate) fn fresh_uuid() -> (r: u128)
    ensures
        r & 0xF000_0000_0000_0000_0000u128 == 0x4000_0000_0000_0000_0000u128,
        r & 0xC000_0000_0000_0000u128 == 0x8000_0000_0000_0000u128,
{
    uuid::Uuid::new_v4().as_u128()
}

} // verus!
