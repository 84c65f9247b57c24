//! Trusted bridge to the JSON library.
//!
//! A `serde_json::Value` is opaque to the verifier, but every call made
//! here is a function of its arguments alone, so each wrapper's result
//! is named by an uninterpreted spec function and pinned by an
//! `ensures`.  The crate's decisions about a document are then taken in
//! verified code whose contracts speak of these names.

use vstd::prelude::*;

verus! {

#[verifier::external_type_specification]
#[verifier::external_body]
pub struct ExValue(serde_json::Value);

/// Whether a piece of text is a well-formed JSON document.
pub uninterp spec fn json_parses(s: Seq<char>) -> bool;

/// The value a well-formed JSON document denotes.
pub uninterp spec fn json_document(s: Seq<char>) -> serde_json::Value;

/// Relies on serde_json::from_str::<Value>: parses a JSON document,
/// or reports the parser's error text.  The result depends on the text
/// alone.
#[verifier::external_body]
pub fn parse_json(body: &str) -> (r: Result<serde_json::Value, String>)
    ensures
        r is Ok <==> json_parses(body@),
        r matches Ok(v) ==> v == json_document(body@),
{
    serde_json::from_str::<serde_json::Value>(body).map_err(|e| e.to_string())
}

/// Whether a value is an object holding the key.
pub uninterp spec fn json_has_key(v: serde_json::Value, key: Seq<char>) -> bool;

/// The value an object holds under the key.
pub uninterp spec fn json_lookup(v: serde_json::Value, key: Seq<char>) -> serde_json::Value;

/// Relies on serde_json::Value::get with a string index: looks a key up
/// when the value is an object holding it, and is `None` otherwise.
#[verifier::external_body]
pub fn json_get<'a>(v: &'a serde_json::Value, key: &str) -> (r: Option<&'a serde_json::Value>)
    ensures
        r is Some <==> json_has_key(*v, key@),
        r matches Some(x) ==> *x == json_lookup(*v, key@),
{
    v.get(key)
}

/// Whether a value is an object.
pub uninterp spec fn json_is_object(v: serde_json::Value) -> bool;

/// Relies on serde_json::Value::is_object: whether the value is a JSON
/// object.
#[verifier::external_body]
pub fn json_object_check(v: &serde_json::Value) -> (r: bool)
    ensures
        r == json_is_object(*v),
{
    v.is_object()
}

/// Whether a value is an array.
pub uninterp spec fn json_is_array(v: serde_json::Value) -> bool;

/// The elements of an array value, in order.
pub uninterp spec fn json_elements(v: serde_json::Value) -> Seq<serde_json::Value>;

/// Relies on serde_json::Value::as_array: the elements when the value
/// is an array, `None` otherwise.
#[verifier::external_body]
pub fn json_as_array(v: &serde_json::Value) -> (r: Option<&Vec<serde_json::Value>>)
    ensures
        r is Some <==> json_is_array(*v),
        r matches Some(a) ==> a@ == json_elements(*v),
{
    v.as_array()
}

/// Whether a value is a string.
pub uninterp spec fn json_is_string(v: serde_json::Value) -> bool;

/// The text of a string value.
pub uninterp spec fn json_text(v: serde_json::Value) -> Seq<char>;

/// Relies on serde_json::Value::as_str: the text when the value is a
/// string, `None` otherwise.
#[verifier::external_body]
pub fn json_as_str(v: &serde_json::Value) -> (r: Option<&str>)
    ensures
        r is Some <==> json_is_string(*v),
        r matches Some(s) ==> s@ == json_text(*v),
{
    v.as_str()
}

/// Whether a value is an integer representable as `i64`.
pub uninterp spec fn json_is_integer(v: serde_json::Value) -> bool;

/// The `i64` an integer value denotes.
pub uninterp spec fn json_integer(v: serde_json::Value) -> i64;

/// Relies on serde_json::Value::as_i64: the number when the value is
/// an integer representable as `i64`, `None` otherwise.
#[verifier::external_body]
pub fn json_as_i64(v: &serde_json::Value) -> (r: Option<i64>)
    ensures
        r is Some <==> json_is_integer(*v),
        r matches Some(x) ==> x == json_integer(*v),
{
    v.as_i64()
}

/// Whether a value is JSON `null`.
pub uninterp spec fn json_null(v: serde_json::Value) -> bool;

/// Relies on serde_json::Value::is_null: whether the value is JSON
/// `null`.
#[verifier::external_body]
pub fn json_is_null(v: &serde_json::Value) -> (r: bool)
    ensures
        r == json_null(*v),
{
    v.is_null()
}

/// Whether a value is a number.
pub uninterp spec fn json_is_number(v: serde_json::Value) -> bool;

/// The decimal text of a number value.
pub uninterp spec fn json_number_chars(v: serde_json::Value) -> Seq<char>;

/// Relies on serde_json::Number::to_string: the decimal text of the
/// number when the value is one, `None` otherwise.  The text depends on
/// the stored number alone.
#[verifier::external_body]
pub fn json_number_text(v: &serde_json::Value) -> (r: Option<String>)
    ensures
        r is Some <==> json_is_number(*v),
        r matches Some(t) ==> t@ == json_number_chars(*v),
{
    match v {
        serde_json::Value::Number(n) => Some(n.to_string()),
        _ => None,
    }
}

} // verus!
