//! Trusted access to serde_json: queries on raw JSON text, each with a named
//! result so that callers can state exact contracts. Every query parses the
//! text and reads one thing out of it; serde_json's map keeps its keys
//! sorted, so re-rendering a value as text is deterministic, and each result
//! is a function of the query's texts alone.

use vstd::prelude::*;
use crate::encode::{opt_list_view, opt_text_view};

verus! {

/// The string field stored under `key` at the top level of the JSON text `s`,
/// or nothing when `s` is not valid JSON, has no such field, or the field is
/// not a string. A function of the two texts alone.
pub uninterp spec fn json_str_field_of(s: Seq<char>, key: Seq<char>) -> Option<Seq<char>>;

/// Relies on `serde_json::from_str`, `Value::get` and `Value::as_str`: looks
/// up a top-level string field of a JSON text.
#[verifier::external_body]
pub(crate) fn json_str_field(s: &str, key: &str) -> (r: Option<String>)
    ensures
        match r {
            Some(t) => json_str_field_of(s@, key@) == Some(t@),
            None => json_str_field_of(s@, key@) is None,
        },
{
    let v: serde_json::Value = match serde_json::from_str(s) {
        Ok(v) => v,
        Err(_) => return None,
    };
    match v.get(key) {
        Some(f) => f.as_str().map(|t| t.to_string()),
        None => None,
    }
}

/// The field stored under `key` at the top level of the JSON text `s`,
/// rendered back as JSON text, or nothing when `s` is not valid JSON or has
/// no such field. A function of the two texts alone.
pub uninterp spec fn json_raw_field_of(s: Seq<char>, key: Seq<char>) -> Option<Seq<char>>;

/// Relies on `serde_json::from_str`, `Value::get` and serde_json's `Display`:
/// looks up a top-level field of a JSON text and renders it back as JSON
/// text.
#[verifier::external_body]
pub(crate) fn json_raw_field(s: &str, key: &str) -> (r: Option<String>)
    ensures
        match r {
            Some(t) => json_raw_field_of(s@, key@) == Some(t@),
            None => json_raw_field_of(s@, key@) is None,
        },
{
    let v: serde_json::Value = match serde_json::from_str(s) {
        Ok(v) => v,
        Err(_) => return None,
    };
    v.get(key).map(|f| f.to_string())
}

/// The numeric field stored under `key` at the top level of the JSON text
/// `s`, rendered back as JSON text, or nothing when `s` is not valid JSON,
/// has no such field, or the field is not a number. A function of the two
/// texts alone.
pub uninterp spec fn json_number_field_of(s: Seq<char>, key: Seq<char>) -> Option<Seq<char>>;

/// Relies on `serde_json::from_str`, `Value::get`, `Value::is_number` and
/// serde_json's `Display`: looks up a top-level numeric field of a JSON text
/// and renders it back as JSON text.
#[verifier::external_body]
pub(crate) fn json_number_field(s: &str, key: &str) -> (r: Option<String>)
    ensures
        match r {
            Some(t) => json_number_field_of(s@, key@) == Some(t@),
            None => json_number_field_of(s@, key@) is None,
        },
{
    let v: serde_json::Value = match serde_json::from_str(s) {
        Ok(v) => v,
        Err(_) => return None,
    };
    match v.get(key) {
        Some(f) if f.is_number() => Some(f.to_string()),
        _ => None,
    }
}

/// An optional string field under `key` at the top level of the JSON text
/// `s`: the outer option is the record's validity — nothing when `s` is not
/// valid JSON or the field is present with another shape — and the inner
/// option is the field, absent when it is missing or null. A function of the
/// two texts alone.
pub uninterp spec fn json_opt_str_field_of(s: Seq<char>, key: Seq<char>) -> Option<
    Option<Seq<char>>,
>;

/// Relies on `serde_json::from_str`, `Value::get` and the `Value` variants:
/// reads an optional top-level string field of a JSON text.
#[verifier::external_body]
pub(crate) fn json_opt_str_field(s: &str, key: &str) -> (r: Option<Option<String>>)
    ensures
        match r {
            Some(f) => json_opt_str_field_of(s@, key@) == Some(opt_text_view(f)),
            None => json_opt_str_field_of(s@, key@) is None,
        },
{
    let v: serde_json::Value = match serde_json::from_str(s) {
        Ok(v) => v,
        Err(_) => return None,
    };
    match v.get(key) {
        None => Some(None),
        Some(serde_json::Value::Null) => Some(None),
        Some(serde_json::Value::String(t)) => Some(Some(t.clone())),
        Some(_) => None,
    }
}

/// An optional list-of-strings field under `key` at the top level of the
/// JSON text `s`, with the same two-level shape as `json_opt_str_field_of`.
/// A function of the two texts alone.
pub uninterp spec fn json_opt_str_list_field_of(s: Seq<char>, key: Seq<char>) -> Option<
    Option<Seq<Seq<char>>>,
>;

/// Relies on `serde_json::from_str`, `Value::get`, the `Value` variants and
/// `Value::as_str`: reads an optional top-level array-of-strings field of a
/// JSON text.
#[verifier::external_body]
pub(crate) fn json_opt_str_list_field(s: &str, key: &str) -> (r: Option<Option<Vec<String>>>)
    ensures
        match r {
            Some(f) => json_opt_str_list_field_of(s@, key@) == Some(opt_list_view(f)),
            None => json_opt_str_list_field_of(s@, key@) is None,
        },
{
    let v: serde_json::Value = match serde_json::from_str(s) {
        Ok(v) => v,
        Err(_) => return None,
    };
    match v.get(key) {
        None => Some(None),
        Some(serde_json::Value::Null) => Some(None),
        Some(serde_json::Value::Array(items)) => items
            .iter()
            .map(|it| it.as_str().map(|t| t.to_string()))
            .collect::<Option<Vec<String>>>()
            .map(Some),
        Some(_) => None,
    }
}

/// An optional boolean field under `key` at the top level of the JSON text
/// `s`, with the same two-level shape as `json_opt_str_field_of`. A function
/// of the two texts alone.
pub uninterp spec fn json_opt_bool_field_of(s: Seq<char>, key: Seq<char>) -> Option<Option<bool>>;

/// Relies on `serde_json::from_str`, `Value::get` and the `Value` variants:
/// reads an optional top-level boolean field of a JSON text.
#[verifier::external_body]
pub(crate) fn json_opt_bool_field(s: &str, key: &str) -> (r: Option<Option<bool>>)
    ensures
        match r {
            Some(f) => json_opt_bool_field_of(s@, key@) == Some(f),
            None => json_opt_bool_field_of(s@, key@) is None,
        },
{
    let v: serde_json::Value = match serde_json::from_str(s) {
        Ok(v) => v,
        Err(_) => return None,
    };
    match v.get(key) {
        None => Some(None),
        Some(serde_json::Value::Null) => Some(None),
        Some(serde_json::Value::Bool(b)) => Some(Some(*b)),
        Some(_) => None,
    }
}

/// An optional integer field under `key` at the top level of the JSON text
/// `s`, with the same two-level shape as `json_opt_str_field_of`; a number
/// that is not an integer makes the record invalid. A function of the two
/// texts alone.
pub uninterp spec fn json_opt_i64_field_of(s: Seq<char>, key: Seq<char>) -> Option<Option<i64>>;

/// Relies on `serde_json::from_str`, `Value::get`, the `Value` variants and
/// `Value::as_i64`: reads an optional top-level integer field of a JSON
/// text.
#[verifier::external_body]
pub(crate) fn json_opt_i64_field(s: &str, key: &str) -> (r: Option<Option<i64>>)
    ensures
        match r {
            Some(f) => json_opt_i64_field_of(s@, key@) == Some(f),
            None => json_opt_i64_field_of(s@, key@) is None,
        },
{
    let v: serde_json::Value = match serde_json::from_str(s) {
        Ok(v) => v,
        Err(_) => return None,
    };
    match v.get(key) {
        None => Some(None),
        Some(serde_json::Value::Null) => Some(None),
        Some(f) => match f.as_i64() {
            Some(y) => Some(Some(y)),
            None => None,
        },
    }
}

/// The elements of the JSON text `s` read as an array, each rendered back as
/// JSON text, or nothing when `s` is not a valid JSON array. A function of
/// the text alone.
pub uninterp spec fn json_array_elems_of(s: Seq<char>) -> Option<Seq<Seq<char>>>;

/// Relies on `serde_json::from_str`, the `Value` variants and serde_json's
/// `Display`: splits a JSON array text into the JSON texts of its elements.
#[verifier::external_body]
pub(crate) fn json_array_elems(s: &str) -> (r: Option<Vec<String>>)
    ensures
        match r {
            Some(v) => json_array_elems_of(s@) == Some(v.deep_view()),
            None => json_array_elems_of(s@) is None,
        },
{
    let v: serde_json::Value = match serde_json::from_str(s) {
        Ok(v) => v,
        Err(_) => return None,
    };
    match v {
        serde_json::Value::Array(items) => Some(items.iter().map(|it| it.to_string()).collect()),
        _ => None,
    }
}

} // verus!
