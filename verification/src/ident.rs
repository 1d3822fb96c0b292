//! Identifiers. A notification and its owner are each named by a UUID, which
//! the library holds as the 128-bit number that the UUID's sixteen bytes
//! spell, most significant byte first.

use vstd::prelude::*;

verus! {

/// The identifier that `uuid::Uuid::parse_str` reads from a text, as the
/// number that `uuid::Uuid::as_u128` gives for it; `None` where the parser
/// refuses the text.
pub uninterp spec fn uuid_of_text(text: Seq<char>) -> Option<u128>;

/// The bits of an identifier that hold its version and its variant.
pub const KIND_MASK: u128 = 0x0000_0000_0000_f000_c000_0000_0000_0000u128;

/// What those bits hold in a random identifier: version 4, and the variant
/// of RFC 9562.
pub const RANDOM_KIND: u128 = 0x0000_0000_0000_4000_8000_0000_0000_0000u128;

/// Reads an identifier.
///
/// Calls `uuid::Uuid::parse_str`, which accepts the simple, hyphenated,
/// braced and URN spellings and depends on the text alone, and
/// `uuid::Uuid::as_u128` on what it returns. The contract only gives the
/// result its name; nothing is claimed about which texts are accepted.
#[verifier::external_body]
pub(crate) fn parse_uuid(text: &str) -> (id: Option<u128>)
    ensures
        id == uuid_of_text(text@),
{
    match uuid::Uuid::parse_str(text) {
        Ok(parsed) => Some(parsed.as_u128()),
        Err(_) => None,
    }
}

/// Draws a fresh identifier.
///
/// Calls `uuid::Uuid::new_v4`, which takes 128 bits from the operating
/// system's random source and overwrites the version and variant bits, and
/// `uuid::Uuid::as_u128` on the result. The contract states those bits and
/// nothing else: each call may return another value. The outside function
/// panics if the operating system cannot supply random bytes.
#[verifier::external_body]
pub(crate) fn random_uuid() -> (id: u128)
    ensures
        id & KIND_MASK == RANDOM_KIND,
{
    uuid::Uuid::new_v4().as_u128()
}

} // verus!
