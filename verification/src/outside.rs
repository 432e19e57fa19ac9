//! What this library takes on trust: the types of other crates that pass
//! through it, and the calls it makes into them and into parts of `std` that
//! the verifier has no contract for. Nothing here is proved; each item says
//! what is assumed of it.

use diesel::result::Error as DieselError;
use http::Error as HttpError;
use serde_json::Error as JsonError;
use std::collections::BTreeMap;
use std::fmt::Write;
use std::path::Path;
use vstd::prelude::*;

verus! {

/// `serde_json::Value`: any JSON value. Opaque here: it is carried from the
/// page to the text that is sent.
#[verifier::external_type_specification]
#[verifier::external_body]
pub struct ExJsonValue(serde_json::Value);

/// `serde_json::Error`: why a text was not the JSON that was asked for, or a
/// value could not be written as JSON. Opaque here.
#[verifier::external_type_specification]
#[verifier::external_body]
pub struct ExJsonError(JsonError);

/// `http::Error`: why an HTTP message could not be put together. Opaque here.
#[verifier::external_type_specification]
#[verifier::external_body]
pub struct ExHttpError(HttpError);

/// `diesel::result::Error`: why a query failed. Opaque here.
#[verifier::external_type_specification]
#[verifier::external_body]
pub struct ExDieselError(DieselError);

/// What `serde_json::from_str` makes of `text` when it is asked for a map
/// from strings to lists of strings: the entries of that map in the order of
/// their keys, or `None` where it reports an error.
pub uninterp spec fn manifest_bundles(text: Seq<char>) -> Option<Seq<(Seq<char>, Seq<Seq<char>>)>>;

/// Calls `serde_json::from_str` for a `BTreeMap<String, Vec<String>>` and
/// hands out the map's entries as they come when the map is walked.
///
/// Assumed: the outcome depends on `text` alone. It is an error exactly where
/// `manifest_bundles` is `None`, and else the entries are those that
/// `manifest_bundles` names.
#[verifier::external_body]
pub(crate) fn parse_manifest(text: &str) -> (r: Result<Vec<(String, Vec<String>)>, JsonError>)
    ensures
        r is Ok <==> manifest_bundles(text@) is Some,
        r matches Ok(bundles) ==> Some(bundles.deep_view()) == manifest_bundles(text@),
{
    let map: BTreeMap<String, Vec<String>> = serde_json::from_str(text)?;
    Ok(map.into_iter().collect())
}

/// Calls `serde_json::to_string` on a `Value`: the value as compact JSON.
/// Nothing is assumed of the outcome.
#[verifier::external_body]
pub(crate) fn json_text(value: &serde_json::Value) -> Result<String, JsonError> {
    serde_json::to_string(value)
}

/// What `serde_json::to_string` writes for the string `text`: the JSON
/// string that holds it.
pub uninterp spec fn json_quoted(text: Seq<char>) -> Seq<char>;

/// Calls `serde_json::to_string` on a `str`.
///
/// Assumed: what is written depends on `text` alone.
#[verifier::external_body]
pub(crate) fn json_string(text: &str) -> (r: Result<String, JsonError>)
    ensures
        r matches Ok(json) ==> json@ == json_quoted(text@),
{
    serde_json::to_string(text)
}

/// Writes a `serde_json::Error` with its `Display`. Nothing is assumed of the
/// text.
#[verifier::external_body]
pub(crate) fn json_error_text(error: &JsonError) -> String {
    let mut text = String::new();
    let _ = write!(text, "{}", error);
    text
}

/// Writes an `http::Error` with its `Display`. Nothing is assumed of the
/// text.
#[verifier::external_body]
pub(crate) fn http_error_text(error: &HttpError) -> String {
    let mut text = String::new();
    let _ = write!(text, "{}", error);
    text
}

/// Writes a `diesel::result::Error` with its `Display`. Nothing is assumed of
/// the text.
#[verifier::external_body]
pub(crate) fn diesel_error_text(error: &DieselError) -> String {
    let mut text = String::new();
    let _ = write!(text, "{}", error);
    text
}

/// What `std::path::Path::join` makes of `base` and `rest`, as text, by the
/// path rules of the platform that the library is built for.
pub uninterp spec fn joined_path(base: Seq<char>, rest: Seq<char>) -> Seq<char>;

/// Calls `std::path::Path::join` on `base` with `rest` and hands the path out
/// as text.
///
/// Assumed: the text depends on `base` and `rest` alone.
#[verifier::external_body]
pub(crate) fn join_path(base: &str, rest: &str) -> (r: String)
    ensures
        r@ == joined_path(base@, rest@),
{
    Path::new(base).join(rest).to_string_lossy().into_owned()
}

/// What the `Debug` of `str` writes for `text`: the text between double
/// quotes, with the characters escaped that `std` escapes there.
pub uninterp spec fn quoted(text: Seq<char>) -> Seq<char>;

/// Writes `text` with the `Debug` of `str`.
///
/// Assumed: what is written depends on `text` alone.
#[verifier::external_body]
pub(crate) fn quote(text: &str) -> (r: String)
    ensures
        r@ == quoted(text@),
{
    format!("{:?}", text)
}

} // verus!
