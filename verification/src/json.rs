//! Reading of JSON documents through `serde_json`.
//!
//! A parsed document is an opaque `serde_json::Value`. Each accessor below is
//! a thin call into `serde_json`; what it returns is named by a specification
//! function, so that code which walks a document can say exactly which walk
//! it makes.

use vstd::prelude::*;
use crate::types::Real;

verus! {

/// `serde_json::Value`, a parsed JSON value. Nothing of its inside is
/// visible here; it is read through the accessors below.
#[verifier::external_type_specification]
#[verifier::external_body]
pub struct ExValue(serde_json::Value);

/// `serde_json::Error`, the reason why a text is no JSON document. Nothing
/// of its inside is visible here; `json_error_text` names its message.
#[verifier::external_type_specification]
#[verifier::external_body]
pub struct ExJsonError(serde_json::Error);

/// The document that `text` denotes, or the reason why `text` is no
/// well-formed JSON.
pub uninterp spec fn json_document(text: Seq<char>) -> Result<
    serde_json::Value,
    serde_json::Error,
>;

/// The message of `error`, as the parser words it.
pub uninterp spec fn json_error_text(error: serde_json::Error) -> Seq<char>;

/// The member of `v` under `key`, if `v` is an object that has one.
pub uninterp spec fn json_member(v: serde_json::Value, key: Seq<char>) -> Option<
    serde_json::Value,
>;

/// The elements of `v`, if `v` is an array.
pub uninterp spec fn json_items(v: serde_json::Value) -> Option<Seq<serde_json::Value>>;

/// The characters of `v`, if `v` is a string.
pub uninterp spec fn json_text(v: serde_json::Value) -> Option<Seq<char>>;

/// The value of `v`, if `v` is a non-negative integer that fits 64 bits.
pub uninterp spec fn json_unsigned(v: serde_json::Value) -> Option<u64>;

/// The value of `v` as a double, if `v` is a number.
pub uninterp spec fn json_real(v: serde_json::Value) -> Option<Real>;

/// `serde_json::from_str::<Value>`: parses a whole document. The result
/// depends on the text alone; a text that is not JSON gives the parser's
/// error.
#[verifier::external_body]
pub(crate) fn parse_document(text: &str) -> (doc: Result<serde_json::Value, serde_json::Error>)
    ensures
        doc == json_document(text@),
{
    serde_json::from_str::<serde_json::Value>(text)
}

/// The `Display` form of a `serde_json::Error`, through `to_string`: the
/// parser's message, with the line and column where it has them. It
/// depends on the error alone.
#[verifier::external_body]
pub(crate) fn error_text(error: &serde_json::Error) -> (text: String)
    ensures
        text@ == json_error_text(*error),
{
    error.to_string()
}

/// `Value::get` with a string key: the member of an object, `None` for a
/// missing key and for a value that is no object.
#[verifier::external_body]
pub(crate) fn value_member<'a>(v: &'a serde_json::Value, key: &str) -> (m: Option<&'a serde_json::Value>)
    ensures
        match m {
            Some(found) => json_member(*v, key@) == Some(*found),
            None => json_member(*v, key@) is None,
        },
{
    v.get(key)
}

/// `Value::as_array`: the elements of an array, `None` for any other value.
#[verifier::external_body]
pub(crate) fn value_items<'a>(v: &'a serde_json::Value) -> (a: Option<&'a Vec<serde_json::Value>>)
    ensures
        match a {
            Some(elements) => json_items(*v) == Some(elements@),
            None => json_items(*v) is None,
        },
{
    v.as_array()
}

/// `Value::as_str`: the characters of a string, `None` for any other value.
#[verifier::external_body]
pub(crate) fn value_text<'a>(v: &'a serde_json::Value) -> (t: Option<&'a str>)
    ensures
        match t {
            Some(chars) => json_text(*v) == Some(chars@),
            None => json_text(*v) is None,
        },
{
    v.as_str()
}

/// `Value::as_u64`: a number that is a non-negative integer within 64 bits,
/// `None` for any other value.
#[verifier::external_body]
pub(crate) fn value_unsigned(v: &serde_json::Value) -> (n: Option<u64>)
    ensures
        n == json_unsigned(*v),
{
    v.as_u64()
}

/// `Value::as_f64`: a number as a double, `None` for a value that is no
/// number. The double is handed out by its bit pattern.
#[verifier::external_body]
pub(crate) fn value_real(v: &serde_json::Value) -> (x: Option<Real>)
    ensures
        x == json_real(*v),
{
    v.as_f64().map(|d| Real { bits: d.to_bits() })
}

/// The value reached from `v` by the keys `first` then `second`.
pub open spec fn json_member2(v: serde_json::Value, first: Seq<char>, second: Seq<char>) -> Option<
    serde_json::Value,
> {
    match json_member(v, first) {
        Some(inner) => json_member(inner, second),
        None => None,
    }
}

/// The value reached from `v` by the keys `first` then `second`.
pub(crate) fn value_member2<'a>(v: &'a serde_json::Value, first: &str, second: &str) -> (m: Option<
    &'a serde_json::Value,
>)
    ensures
        match m {
            Some(found) => json_member2(*v, first@, second@) == Some(*found),
            None => json_member2(*v, first@, second@) is None,
        },
{
    match value_member(v, first) {
        Some(inner) => value_member(inner, second),
        None => None,
    }
}

} // verus!
