//! User identifiers: 128-bit values drawn at random, written and read in
//! the hyphenated UUID text form.

use vstd::prelude::*;
use crate::hex_text::hex_lower;

verus! {

/// A registry identifier, the 128-bit value of a UUID.
pub type UserId = u128;

/// The identifier that a text parses to as a UUID, if it parses.
pub uninterp spec fn parsed_uuid(text: Seq<char>) -> Option<u128>;

/// The sixteen bytes of a value, most significant first.
pub open spec fn be_bytes(v: u128) -> Seq<u8> {
    Seq::new(16, |i: int| ((v >> ((120 - 8 * i) as u128)) & 0xff) as u8)
}

/// The hyphenated lowercase text of a UUID: 8-4-4-4-12 hexadecimal digits.
pub open spec fn uuid_hyphenated(id: u128) -> Seq<char> {
    let h = hex_lower(be_bytes(id));
    h.subrange(0, 8) + seq!['-'] + h.subrange(8, 12) + seq!['-'] + h.subrange(12, 16) + seq!['-']
        + h.subrange(16, 20) + seq!['-'] + h.subrange(20, 32)
}

/// Relies on `uuid::Uuid::new_v4`: a random version-4 UUID, of which
/// nothing is promised here but that it is a value. It panics only when the
/// operating system offers no random bytes.
#[verifier::external_body]
pub(crate) fn random_uuid() -> (r: u128) {
    uuid::Uuid::new_v4().as_u128()
}

/// Relies on `uuid::Uuid::parse_str`: the result depends on the text alone.
#[verifier::external_body]
fn parse_uuid(text: &str) -> (r: Option<u128>)
    ensures
        r == parsed_uuid(text@),
{
    match uuid::Uuid::parse_str(text) {
        Ok(u) => Some(u.as_u128()),
        Err(_) => None,
    }
}

/// Relies on `uuid::fmt::Hyphenated`'s `Display`: lowercase digits of the
/// big-endian bytes, grouped 8-4-4-4-12.
#[verifier::external_body]
fn format_uuid(id: u128) -> (r: String)
    ensures
        r@ == uuid_hyphenated(id),
{
    uuid::Uuid::from_u128(id).hyphenated().to_string()
}

/// Reads an identifier from its UUID text; `None` for a malformed text.
pub fn parse_user_id(text: &str) -> (r: Option<UserId>)
    ensures
        r == parsed_uuid(text@),
{
    parse_uuid(text)
}

/// The hyphenated text of an identifier.
pub fn user_id_text(id: UserId) -> (r: String)
    ensures
        r@ == uuid_hyphenated(id),
{
    format_uuid(id)
}

} // verus!
