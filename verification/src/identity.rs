//! Trusted boundary to the identity parser.
//!
//! A caller identity travels on the wire as a UUID in textual form. The
//! verified logic holds a parsed identity as its 128-bit value; only the
//! textual parse itself is delegated to the `uuid` crate.

use vstd::prelude::*;

verus! {

/// What `uuid::Uuid::parse_str` yields on a given text: the 128-bit value of
/// the UUID it denotes, or `None` when the text is no valid RFC 4122 textual
/// form. Which texts parse, and to what, depends on the characters alone.
pub uninterp spec fn uuid_of(s: Seq<char>) -> Option<u128>;

/// Relies on `uuid::Uuid::parse_str` to decide whether the text is a valid
/// UUID, and on `uuid::Uuid::as_u128` to read the parsed value out.
#[verifier::external_body]
pub(crate) fn parse_uuid(s: &str) -> (r: Option<u128>)
    ensures
        r == uuid_of(s@),
{
    match uuid::Uuid::parse_str(s) {
        Ok(u) => Some(u.as_u128()),
        Err(_) => None,
    }
}

} // verus!
