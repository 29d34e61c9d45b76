//! What this crate takes on trust from `serde_json` and from the standard
//! library's UTF-8 check. Nothing here is proved: every contract in this
//! file states what the named function is documented to do.

use serde_json::Value;
use vstd::prelude::*;
use vstd::utf8::{decode_utf8, valid_utf8};

verus! {

/// `serde_json::Value`, a parsed JSON document. Nothing is known of what is
/// inside one but through `json_string_members`.
#[verifier::external_type_specification]
#[verifier::external_body]
pub struct ExJsonValue(serde_json::Value);

/// The string members of a JSON value: where the value is an object, each
/// key of it whose value is a JSON string, with that string. Any other value
/// has none.
pub uninterp spec fn json_string_members(value: serde_json::Value) -> Map<Seq<char>, Seq<char>>;

/// The string members of the JSON value that `text` is parsed to by
/// `serde_json::from_str`, or `None` where the parser refuses `text`.
pub uninterp spec fn json_text_members(text: Seq<char>) -> Option<Map<Seq<char>, Seq<char>>>;

/// Calls `std::str::from_utf8`, and drops the error where the bytes are
/// refused. Trusted: the bytes are accepted exactly when they are valid
/// UTF-8, and the text is then the one that they encode.
#[verifier::external_body]
pub(crate) fn decode_strict(bytes: &[u8]) -> (text: Option<&str>)
    ensures
        text is Some == valid_utf8(bytes@),
        text matches Some(t) ==> t@ == decode_utf8(bytes@),
{
    std::str::from_utf8(bytes).ok()
}

/// Calls `serde_json::from_str` for a `serde_json::Value`, and drops the
/// error where the parser refuses the text. Trusted: whether the text is
/// accepted, and the string members of the value that comes out, depend on
/// the text alone.
#[verifier::external_body]
pub(crate) fn parse_json(text: &str) -> (value: Option<Value>)
    ensures
        value is Some == json_text_members(text@) is Some,
        value matches Some(v) ==> json_text_members(text@) == Some(json_string_members(v)),
{
    serde_json::from_str::<Value>(text).ok()
}

/// Calls `serde_json::Value::get` with a string key and, on the member it
/// finds, `serde_json::Value::as_str`. Trusted: the result is the string
/// under `key` where the value is an object that has a member `key` whose
/// value is a JSON string, and `None` otherwise.
#[verifier::external_body]
pub(crate) fn string_member<'a>(value: &'a Value, key: &str) -> (member: Option<&'a str>)
    ensures
        member is Some == json_string_members(*value).contains_key(key@),
        member matches Some(s) ==> s@ == json_string_members(*value)[key@],
{
    value.get(key).and_then(Value::as_str)
}

} // verus!
