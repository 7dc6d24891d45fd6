//! The JSON values that the library carries through without reading them,
//! the JSON parse it performs, and the few fields it reads from a parsed
//! value.
use vstd::prelude::*;
use crate::text::{opt_text_view, string_views};

verus! {

/// `serde_json::Value`, carried opaquely.
#[verifier::external_type_specification]
#[verifier::external_body]
pub struct ExJsonValue(serde_json::Value);

/// `serde_json::Error`, carried opaquely.
#[verifier::external_type_specification]
#[verifier::external_body]
pub struct ExJsonError(serde_json::Error);

/// What `serde_json::from_str::<Value>` gives for a text: the parse is a
/// function of the text alone.
pub uninterp spec fn json_parse_result(text: Seq<char>) -> Result<serde_json::Value, serde_json::Error>;

/// Whether the text is one JSON value.
pub open spec fn json_text_is_valid(text: Seq<char>) -> bool {
    json_parse_result(text) is Ok
}

/// The value that the text denotes (meaningful where the text is valid).
pub open spec fn json_parsed(text: Seq<char>) -> serde_json::Value {
    match json_parse_result(text) {
        Ok(v) => v,
        Err(_) => arbitrary(),
    }
}

/// `value.get("ok").and_then(Value::as_bool)` for the value that the text
/// denotes: the boolean `ok` member of an object, if there is one.
pub uninterp spec fn json_ok_field(text: Seq<char>) -> Option<bool>;

/// `value.get("error").and_then(Value::as_str)` for the value that the text
/// denotes: the string `error` member of an object, if there is one.
pub uninterp spec fn json_error_field(text: Seq<char>) -> Option<Seq<char>>;

/// `json!({ key: text })`: an object with one string member.
pub uninterp spec fn json_text_object(key: Seq<char>, text: Seq<char>) -> serde_json::Value;

/// `json!({ key: items })`: an object with one member, an array of strings.
pub uninterp spec fn json_string_list_object(key: Seq<char>, items: Seq<Seq<char>>) -> serde_json::Value;

/// `serde_json::from_str::<Value>`.
///
/// Trusted: the result is the parse of the text named by
/// `json_parse_result`.
#[verifier::external_body]
pub(crate) fn parse_json(text: &str) -> (r: Result<serde_json::Value, serde_json::Error>)
    ensures
        r == json_parse_result(text@),
{
    serde_json::from_str(text)
}

/// `serde_json::Value::get("ok")` followed by `Value::as_bool`, on the value
/// parsed from `text`.
///
/// Trusted: the result is the member named by `json_ok_field` for that text.
#[verifier::external_body]
pub(crate) fn ok_member(text: &str, value: &serde_json::Value) -> (r: Option<bool>)
    requires
        json_text_is_valid(text@),
        *value == json_parsed(text@),
    ensures
        r == json_ok_field(text@),
{
    value.get("ok").and_then(serde_json::Value::as_bool)
}

/// `serde_json::Value::get("error")` followed by `Value::as_str`, on the
/// value parsed from `text`.
///
/// Trusted: the result is the member named by `json_error_field` for that
/// text.
#[verifier::external_body]
pub(crate) fn error_member(text: &str, value: &serde_json::Value) -> (r: Option<String>)
    requires
        json_text_is_valid(text@),
        *value == json_parsed(text@),
    ensures
        opt_text_view(r) == json_error_field(text@),
{
    value.get("error").and_then(serde_json::Value::as_str).map(str::to_owned)
}

/// A `serde_json::Value::Object` built from a `serde_json::Map` holding the
/// one member `key: String(text)`.
///
/// Trusted: the result is the object named by `json_text_object`.
#[verifier::external_body]
pub(crate) fn text_object(key: &str, text: &str) -> (r: serde_json::Value)
    ensures
        r == json_text_object(key@, text@),
{
    let mut members = serde_json::Map::new();
    members.insert(key.to_owned(), serde_json::Value::String(text.to_owned()));
    serde_json::Value::Object(members)
}

/// A `serde_json::Value::Object` built from a `serde_json::Map` holding the
/// one member `key: Array` of `String` values, in the order of `items`.
///
/// Trusted: the result is the object named by `json_string_list_object`.
#[verifier::external_body]
pub(crate) fn string_list_object(key: &str, items: Vec<String>) -> (r: serde_json::Value)
    ensures
        r == json_string_list_object(key@, string_views(items@)),
{
    let mut members = serde_json::Map::new();
    let array = items.into_iter().map(serde_json::Value::String).collect();
    members.insert(key.to_owned(), serde_json::Value::Array(array));
    serde_json::Value::Object(members)
}

/// `<serde_json::Value as Clone>::clone`.
///
/// Trusted: the copy is equal to the original (the derived clone copies
/// every node of the value).
#[verifier::external_body]
pub(crate) fn clone_json(v: &serde_json::Value) -> (r: serde_json::Value)
    ensures
        r == *v,
{
    v.clone()
}

/// The `Display` text of a `serde_json::Error`.
///
/// Trusted with no contract: the text is serde_json's own wording.
#[verifier::external_body]
pub(crate) fn json_error_message(e: &serde_json::Error) -> (s: String) {
    e.to_string()
}

} // verus!
