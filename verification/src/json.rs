//! The boundary to the JSON serializer.
//!
//! The bridge never interprets payload contents beyond what the dispatch
//! logic needs: whether a payload is a well-formed JSON document, and the
//! `code` and `message` fields of the error object a failure payload
//! carries. Everything the crate assumes of the serializer is collected
//! here, stated over two names — `is_valid_json` and `error_fields_of` —
//! that are functions of the text alone.

use vstd::prelude::*;
use crate::errors::ErrorResponse;

verus! {

/// Whether the JSON parser accepts the text as a well-formed document.
/// Parsing is a function of the text alone.
pub uninterp spec fn is_valid_json(s: Seq<char>) -> bool;

#[verifier::external_type_specification]
#[verifier::external_body]
pub struct ExValue(serde_json::Value);

#[verifier::external_type_specification]
#[verifier::external_body]
pub struct ExJsonError(serde_json::Error);

/// Relies on `serde_json::from_str::<Value>`: whether it returns `Ok`
/// depends on the text alone.
#[verifier::external_body]
pub(crate) fn json_from_str(s: &str) -> (r: Result<serde_json::Value, serde_json::Error>)
    ensures
        r is Ok <==> is_valid_json(s@),
{
    serde_json::from_str(s)
}

/// Relies on `serde_json::to_string`: serializes a JSON value to text.
/// For a `Value` it cannot fail: the writer is an infallible in-memory
/// buffer, map keys are strings, and numbers are finite.
#[verifier::external_body]
pub(crate) fn json_to_string(v: &serde_json::Value) -> (r: Result<String, serde_json::Error>)
    ensures
        r is Ok,
{
    serde_json::to_string(v)
}

/// Relies on `<serde_json::Error as Display>` through `ToString::to_string`:
/// the error's rendering as text.
#[verifier::external_body]
pub(crate) fn json_error_text(e: &serde_json::Error) -> String {
    e.to_string()
}

/// The structured error a failure payload's text carries: `None` where the
/// text is not a JSON object whose optional `code` and `message` fields are
/// each a string or null; otherwise the two fields' texts. A function of
/// the text alone.
pub uninterp spec fn error_fields_of(s: Seq<char>) -> Option<
    (Option<Seq<char>>, Option<Seq<char>>),
>;

/// Relies on `serde_json::from_str::<Value>` and the `Value` accessors
/// `is_object`, `get`, `is_null` and `as_str`: reads the error object the
/// text carries, with its optional string `code` and `message` fields. All
/// of them are functions of the text alone.
#[verifier::external_body]
pub(crate) fn decode_error_fields(s: &str) -> (r: Option<ErrorResponse>)
    ensures
        match r {
            Some(er) => error_fields_of(s@) == Some(er.fields()),
            None => error_fields_of(s@) is None,
        },
{
    let v: serde_json::Value = serde_json::from_str(s).ok()?;
    if !v.is_object() {
        return None;
    }
    let code = match v.get("code") {
        Some(c) if !c.is_null() => Some(c.as_str()?.to_string()),
        _ => None,
    };
    let message = match v.get("message") {
        Some(m) if !m.is_null() => Some(m.as_str()?.to_string()),
        _ => None,
    };
    Some(ErrorResponse { code, message })
}

/// Parses the text as JSON. Returns the parsed value exactly when the text
/// is a well-formed JSON document, and the parser's error text otherwise.
pub fn parse_json_text(s: &str) -> (r: Result<serde_json::Value, String>)
    ensures
        r is Ok <==> is_valid_json(s@),
{
    match json_from_str(s) {
        Ok(v) => Ok(v),
        Err(e) => Err(json_error_text(&e)),
    }
}

} // verus!
