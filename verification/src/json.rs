//! A mathematical model of parsed JSON documents, and the trusted boundary
//! to serde_json, which does the parsing.
//!
//! Every accessor of `serde_json::Value` that the decoders rely on is
//! wrapped here with a contract stated over `jv_model`, the document the
//! value holds.

use vstd::prelude::*;

verus! {

/// The abstract content of a parsed JSON document.
///
/// `Int` covers exactly the numbers that serde_json stores as an integer
/// (no fraction or exponent in the token, value within the `i64` or `u64`
/// range); `Float` covers every other number.  Objects are maps from member
/// name to member value; when a document repeats a member name, the map
/// holds the member the parser kept.
pub ghost enum JsonData {
    Null,
    Bool(bool),
    Int(int),
    Float,
    Str(Seq<char>),
    Arr(Seq<JsonData>),
    Obj(Map<Seq<char>, JsonData>),
}

/// The document a parsed `serde_json::Value` holds.
pub uninterp spec fn jv_model(v: serde_json::Value) -> JsonData;

/// What `serde_json::from_str::<Value>` makes of a text: `None` where the
/// text is not a JSON document the parser accepts, otherwise the parsed
/// document.  The result depends on the text alone.
pub uninterp spec fn json_of(s: Seq<char>) -> Option<JsonData>;

#[verifier::external_type_specification]
#[verifier::external_body]
pub struct ExValue(serde_json::Value);

pub open spec fn arr_model(s: Seq<serde_json::Value>) -> Seq<JsonData> {
    s.map_values(|v: serde_json::Value| jv_model(v))
}

/// Relies on `serde_json::from_str::<Value>`: parses a JSON document,
/// deterministically in its input; errors exactly on text that is not an
/// accepted JSON document.
#[verifier::external_body]
pub(crate) fn jv_parse(s: &str) -> (r: Option<serde_json::Value>)
    ensures
        r is Some <==> json_of(s@) is Some,
        r matches Some(v) ==> json_of(s@) == Some(jv_model(v)),
{
    serde_json::from_str::<serde_json::Value>(s).ok()
}

/// Relies on `serde_json::Value::get` with a string index: looks the member
/// up in an object, and returns `None` on every other kind of value.
#[verifier::external_body]
pub(crate) fn jv_get<'a>(v: &'a serde_json::Value, key: &str) -> (r: Option<
    &'a serde_json::Value,
>)
    ensures
        match jv_model(*v) {
            JsonData::Obj(m) => {
                &&& r is Some <==> m.contains_key(key@)
                &&& (r matches Some(f) ==> m.contains_key(key@) && jv_model(*f) == m[key@])
            },
            _ => r is None,
        },
{
    v.get(key)
}

/// Relies on `serde_json::Value::is_object`.
#[verifier::external_body]
pub(crate) fn jv_is_object(v: &serde_json::Value) -> (r: bool)
    ensures
        r <==> jv_model(*v) is Obj,
{
    v.is_object()
}

/// Relies on `serde_json::Value::is_null`.
#[verifier::external_body]
pub(crate) fn jv_is_null(v: &serde_json::Value) -> (r: bool)
    ensures
        r <==> jv_model(*v) is Null,
{
    v.is_null()
}

/// Relies on `serde_json::Value::as_str`: hands the string out exactly when
/// the value is a string.
#[verifier::external_body]
pub(crate) fn jv_as_str(v: &serde_json::Value) -> (r: Option<String>)
    ensures
        match jv_model(*v) {
            JsonData::Str(s) => r matches Some(t) && t@ == s,
            _ => r is None,
        },
{
    v.as_str().map(|s| s.to_string())
}

/// Relies on `serde_json::Value::as_i64`: `Some` exactly for numbers the
/// parser stored as an integer within the `i64` range.
#[verifier::external_body]
pub(crate) fn jv_as_i64(v: &serde_json::Value) -> (r: Option<i64>)
    ensures
        match jv_model(*v) {
            JsonData::Int(i) => if i64::MIN <= i <= i64::MAX {
                r == Some(i as i64)
            } else {
                r is None
            },
            _ => r is None,
        },
{
    v.as_i64()
}

/// Relies on `serde_json::Value::as_u64`: `Some` exactly for numbers the
/// parser stored as an integer within the `u64` range.
#[verifier::external_body]
pub(crate) fn jv_as_u64(v: &serde_json::Value) -> (r: Option<u64>)
    ensures
        match jv_model(*v) {
            JsonData::Int(i) => if 0 <= i <= u64::MAX {
                r == Some(i as u64)
            } else {
                r is None
            },
            _ => r is None,
        },
{
    v.as_u64()
}

/// Relies on `serde_json::Value::as_array`: hands the elements out exactly
/// when the value is an array.
#[verifier::external_body]
pub(crate) fn jv_as_array<'a>(v: &'a serde_json::Value) -> (r: Option<
    &'a Vec<serde_json::Value>,
>)
    ensures
        match jv_model(*v) {
            JsonData::Arr(s) => r matches Some(a) && arr_model(a@) == s,
            _ => r is None,
        },
{
    v.as_array()
}

} // verus!
