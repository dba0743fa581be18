//! The JSON values that travel through the gateway, and the calls into
//! `serde_json` that read and write them.
//!
//! A `serde_json::Value` is opaque here: it is carried, never inspected.
//! Everything the gateway needs to know about one is obtained through the
//! functions below, whose contracts are taken on trust from `serde_json`.

use vstd::prelude::*;

verus! {

/// Makes `serde_json::Value` known as a type whose inside is not looked at.
#[verifier::external_type_specification]
#[verifier::external_body]
pub struct ExJsonValue(serde_json::Value);

/// Makes `serde_json::Error` known as a type whose inside is not looked at.
#[verifier::external_type_specification]
#[verifier::external_body]
pub struct ExJsonError(serde_json::Error);

/// The outcome of `serde_json::from_str::<serde_json::Value>` on a text.
pub uninterp spec fn json_parse(text: Seq<char>) -> Result<
    serde_json::Value,
    serde_json::Error,
>;

/// The member that `serde_json::Value::get` finds under a name.
pub uninterp spec fn json_member(value: serde_json::Value, name: Seq<char>) -> Option<
    serde_json::Value,
>;

/// The text that `serde_json::to_string` writes for a value.
pub uninterp spec fn json_text(value: serde_json::Value) -> Seq<char>;

/// The message that a `serde_json::Error` displays.
pub uninterp spec fn json_error_text(error: serde_json::Error) -> Seq<char>;

/// Calls `serde_json::from_str` to read one JSON value from the whole of
/// `text`. Trusted: the outcome depends on the text alone.
#[verifier::external_body]
pub(crate) fn parse(text: &str) -> (r: Result<serde_json::Value, serde_json::Error>)
    ensures
        r == json_parse(text@),
{
    serde_json::from_str::<serde_json::Value>(text)
}

/// Calls `serde_json::Value::get` with a string index and hands out a copy of
/// what it found. Trusted: the outcome depends on the value and the name alone.
#[verifier::external_body]
pub(crate) fn member(value: &serde_json::Value, name: &str) -> (r: Option<serde_json::Value>)
    ensures
        r == json_member(*value, name@),
{
    value.get(name).cloned()
}

/// Calls `serde_json::to_string` on a value. Trusted: the call succeeds,
/// and the text depends on the value alone. The serializer fails only where
/// its writer fails or a key is no string; here it writes to memory, and the
/// keys of a `Value` are strings.
#[verifier::external_body]
pub(crate) fn to_text(value: &serde_json::Value) -> (r: Result<String, serde_json::Error>)
    ensures
        r is Ok,
        r matches Ok(text) ==> text@ == json_text(*value),
{
    serde_json::to_string(value)
}

/// Formats a `serde_json::Error` through its `Display` impl. Trusted: the
/// message depends on the error alone.
#[verifier::external_body]
pub(crate) fn error_text(error: &serde_json::Error) -> (r: String)
    ensures
        r@ == json_error_text(*error),
{
    error.to_string()
}

} // verus!
