//! Identifiers of connections, users and conversations.
//!
//! Users and conversations are identified by UUIDs.  Inside the relay a UUID
//! is kept as the 128-bit integer that holds its sixteen bytes in big-endian
//! order; the `uuid` crate reads, writes and draws them.

use vstd::prelude::*;

verus! {

/// Handle of one live transport connection, unique for the life of the process.
pub type ConnectionId = u64;

/// Identifier of a user, as issued by the identity provider.
pub type UserId = u128;

/// Identifier of a conversation.
pub type ConversationId = u128;

/// The bits of a UUID that hold its version and its variant.
pub const VERSION_VARIANT_MASK: u128 = 0x0000_0000_0000_F000_C000_0000_0000_0000;

/// Version 4 (random) in the version bits, the RFC variant in the variant bits.
pub const RANDOM_VERSION_VARIANT: u128 = 0x0000_0000_0000_4000_8000_0000_0000_0000;

/// The identifier that `uuid::Uuid::try_parse` reads from `text`, as its
/// 128-bit value, or `None` where it rejects the text.
pub uninterp spec fn parsed_uuid(text: Seq<char>) -> Option<u128>;

/// The lower-case hexadecimal digit for a number below sixteen.
pub open spec fn hex_digit(d: u128) -> char {
    if d < 10 {
        (d + 48) as char
    } else {
        (d + 87) as char
    }
}

/// The hexadecimal digit of `id` at `place`, the most significant digit
/// being at place 0 and the least significant at place 31.
pub open spec fn hex_digit_at(id: u128, place: int) -> char {
    hex_digit((id >> ((124 - 4 * place) as u128)) & 0xf)
}

/// The place of the digit that stands at position `at` of the hyphenated
/// text, in which positions 8, 13, 18 and 23 hold hyphens.
pub open spec fn place_of(at: int) -> int {
    if at < 8 {
        at
    } else if at < 13 {
        at - 1
    } else if at < 18 {
        at - 2
    } else if at < 23 {
        at - 3
    } else {
        at - 4
    }
}

/// The text of an identifier: its thirty-two lower-case hexadecimal digits,
/// most significant first, in groups of 8, 4, 4, 4 and 12 that hyphens part.
/// This is what `uuid::Uuid` displays.
pub open spec fn uuid_text(id: u128) -> Seq<char> {
    Seq::new(
        36,
        |at: int|
            if at == 8 || at == 13 || at == 18 || at == 23 {
                '-'
            } else {
                hex_digit_at(id, place_of(at))
            },
    )
}

/// Whether `id` carries the version and variant bits of a random UUID.
pub open spec fn is_random_uuid(id: u128) -> bool {
    id & VERSION_VARIANT_MASK == RANDOM_VERSION_VARIANT
}

/// Reads an identifier with `uuid::Uuid::try_parse` and returns its 128-bit
/// value (`Uuid::as_u128`).  Trusted: the result is whatever the parser of the
/// `uuid` crate makes of the text, which depends on the text alone.
#[verifier::external_body]
pub(crate) fn parse_uuid(text: &str) -> (r: Option<u128>)
    ensures
        r == parsed_uuid(text@),
{
    match uuid::Uuid::try_parse(text) {
        Ok(id) => Some(id.as_u128()),
        Err(_) => None,
    }
}

/// Writes an identifier as `uuid::Uuid` displays it (`Uuid::from_u128`, then
/// `to_string`).  Trusted: the text is the hyphenated lower-case form, and it
/// is one of the forms that `Uuid::try_parse` reads, so that it reads back as
/// the same identifier.
#[verifier::external_body]
pub(crate) fn format_uuid(id: u128) -> (r: String)
    ensures
        r@ == uuid_text(id),
        parsed_uuid(r@) == Some(id),
{
    uuid::Uuid::from_u128(id).to_string()
}

/// Draws a random identifier with `uuid::Uuid::new_v4`.  Trusted: whatever
/// the random source gives, the crate sets the version bits to 4 and the
/// variant bits to the RFC variant.
#[verifier::external_body]
pub(crate) fn random_uuid() -> (r: u128)
    ensures
        is_random_uuid(r),
{
    uuid::Uuid::new_v4().as_u128()
}

/// The text of an identifier, as replies and chat messages carry it.  A
/// command that names the identifier by this text names the same identifier.
pub fn id_text(id: u128) -> (text: String)
    ensures
        text@ == uuid_text(id),
        parsed_uuid(text@) == Some(id),
{
    format_uuid(id)
}

} // verus!
