//! Looking into JSON texts.

use vstd::prelude::*;

use crate::text::chars;

verus! {

/// What `serde_json::from_str`, `Value::get` and `Value::as_str` find under a
/// key of a JSON text: the text that stands there, if any does, or the text of
/// the parse error.
pub uninterp spec fn json_field(raw: Seq<char>, key: Seq<char>) -> Result<
    Option<Seq<char>>,
    Seq<char>,
>;

/// What `serde_json::from_str` and `Value::get` find under a key of a JSON
/// text, written by `Value::to_string`: the member, if there is one, or the
/// text of the parse error.
pub uninterp spec fn json_member(raw: Seq<char>, key: Seq<char>) -> Result<
    Option<Seq<char>>,
    Seq<char>,
>;

/// What `serde_json::from_str` makes of a JSON text, written by
/// `Value::to_string`, or the text of the parse error.
pub uninterp spec fn json_all(raw: Seq<char>) -> Result<Seq<char>, Seq<char>>;

/// The contents of an optional text or an error.
pub open spec fn field_view(r: Result<Option<String>, String>) -> Result<
    Option<Seq<char>>,
    Seq<char>,
> {
    match r {
        Ok(o) => Ok(chars::opt_view(o)),
        Err(e) => Err(e@),
    }
}

/// The contents of a text or an error.
pub open spec fn text_view(r: Result<String, String>) -> Result<Seq<char>, Seq<char>> {
    match r {
        Ok(s) => Ok(s@),
        Err(e) => Err(e@),
    }
}

/// Calls `serde_json::from_str`, `serde_json::Value::get` and
/// `serde_json::Value::as_str`: the text under a key of a JSON text, or the
/// text of the error where it is no JSON.
#[verifier::external_body]
pub(crate) fn text_field(raw: &str, key: &str) -> (r: Result<Option<String>, String>)
    ensures
        field_view(r) == json_field(raw@, key@),
{
    match serde_json::from_str::<serde_json::Value>(raw) {
        Ok(v) => Ok(v.get(key).and_then(|x| x.as_str()).map(|s| s.to_owned())),
        Err(e) => Err(e.to_string()),
    }
}

/// Calls `serde_json::from_str`, `serde_json::Value::get` and
/// `serde_json::Value::to_string`: the member under a key of a JSON text,
/// where there is one, or the text of the error where it is no JSON.
#[verifier::external_body]
pub(crate) fn member(raw: &str, key: &str) -> (r: Result<Option<String>, String>)
    ensures
        field_view(r) == json_member(raw@, key@),
{
    match serde_json::from_str::<serde_json::Value>(raw) {
        Ok(v) => Ok(v.get(key).map(|x| x.to_string())),
        Err(e) => Err(e.to_string()),
    }
}

/// Calls `serde_json::from_str` and `serde_json::Value::to_string`: the JSON
/// text written anew, or the text of the error where it is no JSON.
#[verifier::external_body]
pub(crate) fn rewrite(raw: &str) -> (r: Result<String, String>)
    ensures
        text_view(r) == json_all(raw@),
{
    match serde_json::from_str::<serde_json::Value>(raw) {
        Ok(v) => Ok(v.to_string()),
        Err(e) => Err(e.to_string()),
    }
}

} // verus!
