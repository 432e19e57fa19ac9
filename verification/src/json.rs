//! What is asked of `serde_json` where its answer cannot be named by what
//! goes in: a value is opaque, and so is an error. What is known of such an
//! answer is that it was given, or could be given, to that question.

use crate::outside::{json_error_text, json_quoted, json_string, json_text};
use serde_json::Error as JsonError;
use serde_json::Value;
use vstd::prelude::*;

verus! {

/// Whether `serde_json` writes `value` as the compact JSON `text`.
pub closed spec fn writes(value: Value, text: Seq<char>) -> bool {
    exists|t: String| t@ == text && call_ensures(json_text, (&value,), Ok::<String, JsonError>(t))
}

/// Whether `serde_json` refuses to write `value`, with `error`.
pub closed spec fn refuses(value: Value, error: JsonError) -> bool {
    call_ensures(json_text, (&value,), Err::<String, JsonError>(error))
}

/// Whether `serde_json` refuses to write the string `text`, with `error`.
pub closed spec fn refuses_string(text: Seq<char>, error: JsonError) -> bool {
    exists|t: &str| t@ == text && call_ensures(json_string, (t,), Err::<String, JsonError>(error))
}

/// Whether `text` is what `error` says of itself.
pub closed spec fn says(error: JsonError, text: Seq<char>) -> bool {
    exists|t: String| t@ == text && call_ensures(json_error_text, (&error,), t)
}

/// `value` as compact JSON.
pub(crate) fn to_text(value: &Value) -> (r: Result<String, JsonError>)
    ensures
        match r {
            Ok(text) => writes(*value, text@),
            Err(error) => refuses(*value, error),
        },
{
    json_text(value)
}

/// The string `text` as JSON.
pub(crate) fn string_to_text(text: &str) -> (r: Result<String, JsonError>)
    ensures
        match r {
            Ok(json) => json@ == json_quoted(text@),
            Err(error) => refuses_string(text@, error),
        },
{
    json_string(text)
}

/// What `error` says of itself.
pub(crate) fn error_text(error: &JsonError) -> (text: String)
    ensures
        says(*error, text@),
{
    json_error_text(error)
}

} // verus!
