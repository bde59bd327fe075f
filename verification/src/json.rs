//! JSON values, as the `serde_json` crate reads and writes them.
//!
//! A JSON value is opaque here.  What the relay needs of one (a member of an
//! object, a string, a number, an identifier, a time) it asks of the crates
//! that own the formats, and every answer depends on the value alone.

use serde::Deserialize;
use serde_json::Value;
use vstd::prelude::*;

verus! {

/// `serde_json::Value`: a JSON value.  Opaque.
#[verifier::external_type_specification]
#[verifier::external_body]
pub struct ExJsonValue(Value);

/// `serde_json::Error`: why a text was not read or written as JSON.  Opaque.
#[verifier::external_type_specification]
#[verifier::external_body]
pub struct ExJsonError(serde_json::Error);

/// The JSON value that `serde_json::from_str` reads from `text`; `None`
/// where it reports an error.
pub uninterp spec fn parsed_json(text: Seq<char>) -> Option<Value>;

/// The JSON string literal, quotes and escapes included, that
/// `serde_json::to_string` writes for the text `s`.
pub uninterp spec fn json_string_text(s: Seq<char>) -> Seq<char>;

/// The member that `serde_json::Value::get` finds in `value` under the
/// string `key`: `None` unless `value` is an object that has it.
pub uninterp spec fn json_member(value: Value, key: Seq<char>) -> Option<Value>;

/// The text that serde reads from `value` as a `String`, if it reads one.
pub uninterp spec fn json_text(value: Value) -> Option<Seq<char>>;

/// The number that serde reads from `value` as a `u64`, if it reads one.
pub uninterp spec fn json_unsigned(value: Value) -> Option<u64>;

/// The identifier that serde reads from `value` as a `uuid::Uuid`, if it
/// reads one, as its 128-bit value.
pub uninterp spec fn json_uuid(value: Value) -> Option<u128>;

/// The time that `chrono::serde::ts_seconds` reads from `value`, if it reads
/// one, in seconds since the Unix epoch.
pub uninterp spec fn json_timestamp(value: Value) -> Option<i64>;

/// The text of the member `key` of `value`, if there is such a member and it
/// reads as a string.
pub open spec fn json_text_member(value: Value, key: Seq<char>) -> Option<Seq<char>> {
    match json_member(value, key) {
        Some(m) => json_text(m),
        None => None,
    }
}

/// Reads a text as JSON with `serde_json::from_str`.  Trusted: the outcome
/// depends on the text alone.
#[verifier::external_body]
pub(crate) fn parse_json(text: &str) -> (r: Option<Value>)
    ensures
        r == parsed_json(text@),
{
    serde_json::from_str::<Value>(text).ok()
}

/// Encodes a text as a JSON string literal with `serde_json::to_string`.
/// Trusted: the literal depends on the text alone, and for a text the
/// encoder never reports an error: it writes into memory, and a `str` is
/// neither a map nor a value that refuses to be written.
#[verifier::external_body]
pub(crate) fn json_quote(s: &str) -> (r: Result<String, serde_json::Error>)
    ensures
        r is Ok,
        r.unwrap()@ == json_string_text(s@),
{
    serde_json::to_string(s)
}

/// Looks a member up with `serde_json::Value::get`.  Trusted: what is found
/// depends on the value and the key alone.
#[verifier::external_body]
pub(crate) fn member<'a>(value: &'a Value, key: &str) -> (r: Option<&'a Value>)
    ensures
        match r {
            Some(m) => json_member(*value, key@) == Some(*m),
            None => json_member(*value, key@) is None,
        },
{
    value.get(key)
}

/// Reads a JSON value as a `String` through its serde `Deserialize` impl.
/// Trusted: the outcome depends on the value alone.
#[verifier::external_body]
pub(crate) fn read_text(value: &Value) -> (r: Option<String>)
    ensures
        match r {
            Some(text) => json_text(*value) == Some(text@),
            None => json_text(*value) is None,
        },
{
    String::deserialize(value).ok()
}

/// Reads a JSON value as a `u64` through its serde `Deserialize` impl.
/// Trusted: the outcome depends on the value alone.
#[verifier::external_body]
pub(crate) fn read_unsigned(value: &Value) -> (r: Option<u64>)
    ensures
        r == json_unsigned(*value),
{
    u64::deserialize(value).ok()
}

/// Reads a JSON value as a `uuid::Uuid` through its serde `Deserialize` impl
/// and returns the 128-bit value.  Trusted: the outcome depends on the value
/// alone.
#[verifier::external_body]
pub(crate) fn read_uuid(value: &Value) -> (r: Option<u128>)
    ensures
        r == json_uuid(*value),
{
    match uuid::Uuid::deserialize(value) {
        Ok(id) => Some(id.as_u128()),
        Err(_) => None,
    }
}

/// Reads a JSON value as a time with `chrono::serde::ts_seconds::deserialize`
/// and returns its Unix timestamp.  Trusted: the outcome depends on the value
/// alone.
#[verifier::external_body]
pub(crate) fn read_timestamp(value: &Value) -> (r: Option<i64>)
    ensures
        r == json_timestamp(*value),
{
    match chrono::serde::ts_seconds::deserialize(value) {
        Ok(time) => Some(time.timestamp()),
        Err(_) => None,
    }
}

/// Reads the member `key` of `value` as a string.
pub fn read_text_member(value: &Value, key: &str) -> (r: Option<String>)
    ensures
        match r {
            Some(text) => json_text_member(*value, key@) == Some(text@),
            None => json_text_member(*value, key@) is None,
        },
{
    match member(value, key) {
        Some(m) => read_text(m),
        None => None,
    }
}

} // verus!
