//! The parts of `serde_json` that this crate calls, and what it takes for
//! granted about each of them. Nothing in this file is proved.
//!
//! A decoded document is opaque here. All that is said of `serde_json` is
//! that each of these functions gives the same answer whenever it is asked
//! the same question; the answers have names, so that the functions that
//! call them can say what they return.

use serde_json::Value;
use vstd::prelude::*;

verus! {

/// A JSON document as `serde_json` holds it.
#[verifier::external_type_specification]
#[verifier::external_body]
pub struct ExValue(serde_json::Value);

/// The reason for which `serde_json` refuses a text.
#[verifier::external_type_specification]
#[verifier::external_body]
pub struct ExJsonError(serde_json::Error);

/// What `serde_json::from_str` makes of a text: the document, or the reason
/// for which the text is not one.
pub uninterp spec fn json_parse(text: Seq<char>) -> Result<Value, serde_json::Error>;

/// What a `serde_json::Error` shows as its message.
pub uninterp spec fn json_error_text(fault: serde_json::Error) -> Seq<char>;

/// What `serde_json::Value::get` finds in a document under a string key.
pub uninterp spec fn json_member(value: Value, key: Seq<char>) -> Option<Value>;

/// What `serde_json::Value::as_array` finds in a document.
pub uninterp spec fn json_items(value: Value) -> Option<Seq<Value>>;

/// What `serde_json::Value::as_u64` finds in a document.
pub uninterp spec fn json_u64(value: Value) -> Option<u64>;

/// What `serde_json::Value::as_bool` finds in a document.
pub uninterp spec fn json_bool(value: Value) -> Option<bool>;

/// Calls `serde_json::from_str` to decode a text into a `Value`.
///
/// Taken for granted: the result depends on the text alone.
#[verifier::external_body]
pub(crate) fn parse(text: &str) -> (parsed: Result<Value, serde_json::Error>)
    ensures
        parsed == json_parse(text@),
{
    serde_json::from_str::<Value>(text)
}

/// Calls `to_string` on a `serde_json::Error`, which writes the error as its
/// `Display` implementation shows it.
///
/// Taken for granted: the text depends on the error alone.
#[verifier::external_body]
pub(crate) fn describe(fault: &serde_json::Error) -> (text: String)
    ensures
        text@ == json_error_text(*fault),
{
    fault.to_string()
}

/// Calls `serde_json::Value::get` with a string key.
///
/// Taken for granted: whether a member is found, and which, depends on the
/// document and the key alone.
#[verifier::external_body]
pub(crate) fn member<'a>(value: &'a Value, key: &str) -> (found: Option<&'a Value>)
    ensures
        found == match json_member(*value, key@) {
            Some(inner) => Some(&inner),
            None => None,
        },
{
    value.get(key)
}

/// `serde_json::Value::as_array`.
///
/// Taken for granted: whether the document is handed out as an array, and
/// with which items, depends on the document alone.
pub assume_specification[ Value::as_array ](value: &Value) -> (items: Option<&Vec<Value>>)
    ensures
        items matches Some(list) ==> json_items(*value) == Some(list@),
        items is None ==> json_items(*value) is None,
;

/// `serde_json::Value::as_u64`.
///
/// Taken for granted: the result depends on the document alone.
pub assume_specification[ Value::as_u64 ](value: &Value) -> (number: Option<u64>)
    ensures
        number == json_u64(*value),
;

/// `serde_json::Value::as_bool`.
///
/// Taken for granted: the result depends on the document alone.
pub assume_specification[ Value::as_bool ](value: &Value) -> (flag: Option<bool>)
    ensures
        flag == json_bool(*value),
;

} // verus!
