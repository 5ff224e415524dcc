//! The opaque 128-bit identifiers that the service issues, and their
//! canonical hyphenated text form. Generation, parsing and rendering are
//! delegated to the `uuid` crate through trusted wrappers; the rest of the
//! library reasons about them through the two names below.

use vstd::prelude::*;

verus! {

/// What `uuid::Uuid::parse_str` makes of a string: the 128-bit value read
/// big-endian from its hexadecimal digits, or nothing when the string is not
/// in one of the accepted formats. The result depends on the characters
/// alone.
pub uninterp spec fn parsed_identifier(s: Seq<char>) -> Option<u128>;

/// The canonical hyphenated text form of a 128-bit identifier: 36 lowercase
/// hexadecimal characters and hyphens, determined by the value alone.
pub uninterp spec fn identifier_text(id: u128) -> Seq<char>;

/// Relies on `uuid::Uuid::new_v4`: a randomly generated value. Nothing can
/// be promised of the result; callers must cope with every outcome.
#[verifier::external_body]
pub(crate) fn fresh_identifier() -> u128 {
    uuid::Uuid::new_v4().as_u128()
}

/// Relies on `uuid::Uuid::parse_str`, which reads hexadecimal digits with
/// optional hyphens and fails on anything else, and on `Uuid::as_u128`,
/// which converts the parsed value one-for-one.
#[verifier::external_body]
pub(crate) fn parse_identifier(s: &str) -> (r: Option<u128>)
    ensures
        r == parsed_identifier(s@),
{
    match uuid::Uuid::parse_str(s) {
        Ok(u) => Some(u.as_u128()),
        Err(_) => None,
    }
}

/// Relies on `uuid::Uuid::from_u128`, the exact inverse of `Uuid::as_u128`,
/// and on the `Hyphenated` rendering: 36 characters in the 8-4-4-4-12 hex
/// layout, which `Uuid::parse_str` documents it accepts and reads back to
/// the same value.
#[verifier::external_body]
pub(crate) fn render_identifier(id: u128) -> (r: String)
    ensures
        r@ == identifier_text(id),
        r@.len() == 36,
        parsed_identifier(r@) == Some(id),
{
    uuid::Uuid::from_u128(id).hyphenated().to_string()
}

} // verus!
