//! A ghost model of parsed JSON, and trusted views onto `serde_json`.
//!
//! The archive's reply is parsed by `serde_json` into a `serde_json::Value`,
//! which the verifier treats as opaque. [`Json`] is the ghost model of such
//! a value — which variant it is and what it holds — and [`value_model`]
//! names the model of each parsed value. The wrappers below expose the
//! parser and the accessors the schema check needs, each with a contract
//! over the model.

use vstd::prelude::*;

verus! {

/// The ghost model of a parsed JSON value, as the parser exposes it.
pub enum Json {
    /// JSON `null`.
    Null,
    /// A boolean.
    Bool(bool),
    /// A number the parser holds integrally, within the signed 64-bit
    /// range. (A number written with a fraction or exponent is held as a
    /// float even when its value is whole.)
    Int(i64),
    /// Any other number.
    OtherNum,
    /// A string.
    Str(Seq<char>),
    /// An array of values, in document order.
    Arr(Seq<Json>),
    /// An object: a map from field name to field value.
    Obj(Map<Seq<char>, Json>),
}

#[verifier::external_type_specification]
#[verifier::external_body]
pub struct ExValue(serde_json::Value);

/// The model of a parsed JSON value.
pub uninterp spec fn value_model(v: serde_json::Value) -> Json;

/// The JSON document a byte sequence encodes, if the bytes parse as JSON.
pub uninterp spec fn json_of(b: Seq<u8>) -> Option<Json>;

/// Relies on `serde_json::from_slice`: whether bytes parse as a JSON
/// document, and to which document, depends on the bytes alone. The error
/// string carries the parser's own description.
#[verifier::external_body]
pub(crate) fn parse_json(b: &[u8]) -> (r: Result<serde_json::Value, String>)
    ensures
        r is Ok <==> json_of(b@) is Some,
        r matches Ok(v) ==> json_of(b@) matches Some(j) && value_model(v) == j,
{
    match serde_json::from_slice::<serde_json::Value>(b) {
        Ok(v) => Ok(v),
        Err(e) => Err(format!("{}", e)),
    }
}

/// Relies on `serde_json::Value::get` with a string key: on an object it
/// looks the key up; on any other variant, or a missing key, it returns
/// `None`.
#[verifier::external_body]
pub(crate) fn value_get<'a>(v: &'a serde_json::Value, key: &str) -> (r: Option<
    &'a serde_json::Value,
>)
    ensures
        match value_model(*v) {
            Json::Obj(m) => {
                &&& r is Some <==> m.contains_key(key@)
                &&& (r matches Some(x) ==> m.contains_key(key@) && value_model(*x) == m[key@])
            },
            _ => r is None,
        },
{
    v.get(key)
}

/// Relies on `serde_json::Value::as_str`: `Some` exactly on strings, with
/// the string itself.
#[verifier::external_body]
pub(crate) fn value_as_str<'a>(v: &'a serde_json::Value) -> (r: Option<&'a str>)
    ensures
        match value_model(*v) {
            Json::Str(s) => r matches Some(x) && x@ == s,
            _ => r is None,
        },
{
    v.as_str()
}

/// Relies on `serde_json::Value::as_array`: `Some` exactly on arrays, with
/// the elements in document order.
#[verifier::external_body]
pub(crate) fn value_as_array<'a>(v: &'a serde_json::Value) -> (r: Option<
    &'a Vec<serde_json::Value>,
>)
    ensures
        match value_model(*v) {
            Json::Arr(elems) => r matches Some(a) && a@.len() == elems.len() && forall|i: int|
                0 <= i < elems.len() ==> value_model(a@[i]) == elems[i],
            _ => r is None,
        },
{
    v.as_array()
}

/// Relies on `serde_json::Value::as_i64`: `Some` exactly on numbers the
/// parser holds as signed 64-bit integers, with the integer itself.
#[verifier::external_body]
pub(crate) fn value_as_i64(v: &serde_json::Value) -> (r: Option<i64>)
    ensures
        match value_model(*v) {
            Json::Int(n) => r == Some(n),
            _ => r is None,
        },
{
    v.as_i64()
}

/// Relies on `serde_json::Value::as_bool`: `Some` exactly on booleans, with
/// the boolean itself.
#[verifier::external_body]
pub(crate) fn value_as_bool(v: &serde_json::Value) -> (r: Option<bool>)
    ensures
        match value_model(*v) {
            Json::Bool(b0) => r == Some(b0),
            _ => r is None,
        },
{
    v.as_bool()
}

} // verus!
