//! A mathematical model of `serde_json::Value` and the few operations on it
//! that the inspector relies on.

use vstd::prelude::*;

verus! {

#[verifier::external_type_specification]
#[verifier::external_body]
pub struct ExValue(serde_json::Value);

/// The number held in a JSON number, as serde_json stores it: a
/// non-negative integer, a negative integer, or a float (whose value the
/// inspector never reads).
pub enum NumberView {
    PosInt(u64),
    NegInt(i64),
    Float,
}

/// What a JSON value holds. Objects map each key to one value.
pub enum JsonView {
    Null,
    Bool(bool),
    Number(NumberView),
    Str(Seq<char>),
    Array(Seq<JsonView>),
    Object(Map<Seq<char>, JsonView>),
}

/// What a `serde_json::Value` holds.
pub uninterp spec fn json_view(v: serde_json::Value) -> JsonView;

/// The document that serde_json reads from the bytes, or `None` where it
/// rejects them (text that is not JSON, or nesting past its depth limit).
pub uninterp spec fn parse_json(bytes: Seq<u8>) -> Option<JsonView>;

/// The value under `key` when `j` is an object that has that key.
pub open spec fn field(j: JsonView, key: Seq<char>) -> Option<JsonView> {
    match j {
        JsonView::Object(m) => if m.contains_key(key) {
            Some(m[key])
        } else {
            None
        },
        _ => None,
    }
}

/// `field` applied to a value that may be absent.
pub open spec fn field_of(j: Option<JsonView>, key: Seq<char>) -> Option<JsonView> {
    match j {
        Some(v) => field(v, key),
        None => None,
    }
}

/// The text of a JSON string.
pub open spec fn str_of(j: Option<JsonView>) -> Option<Seq<char>> {
    match j {
        Some(JsonView::Str(s)) => Some(s),
        _ => None,
    }
}

/// A JSON number read as a `u64`: only non-negative integers qualify.
pub open spec fn u64_of(j: Option<JsonView>) -> Option<u64> {
    match j {
        Some(JsonView::Number(NumberView::PosInt(n))) => Some(n),
        _ => None,
    }
}

/// The items of a JSON array.
pub open spec fn array_of(j: Option<JsonView>) -> Option<Seq<JsonView>> {
    match j {
        Some(JsonView::Array(items)) => Some(items),
        _ => None,
    }
}

/// The models of a sequence of values.
pub open spec fn views_of(vs: Seq<serde_json::Value>) -> Seq<JsonView> {
    vs.map_values(|v: serde_json::Value| json_view(v))
}

/// Relies on `serde_json::from_slice` into a `Value`: whether it succeeds, and
/// the value it builds, depend on the bytes alone. The error is turned into
/// its message.
#[verifier::external_body]
pub(crate) fn parse_document(bytes: &[u8]) -> (r: Result<serde_json::Value, String>)
    ensures
        match r {
            Ok(v) => parse_json(bytes@) == Some(json_view(v)),
            Err(_) => parse_json(bytes@).is_none(),
        },
{
    serde_json::from_slice::<serde_json::Value>(bytes).map_err(|e| e.to_string())
}

/// Relies on `serde_json::Value::get` with a string index: the value under
/// that key of an object, `None` for a missing key or a value of another kind.
#[verifier::external_body]
pub(crate) fn get_field<'a>(v: &'a serde_json::Value, key: &str) -> (r: Option<&'a serde_json::Value>)
    ensures
        match r {
            Some(x) => field(json_view(*v), key@) == Some(json_view(*x)),
            None => field(json_view(*v), key@).is_none(),
        },
{
    v.get(key)
}

/// Relies on `serde_json::Value::as_str`: the text of a string value, `None`
/// for any other kind.
#[verifier::external_body]
pub(crate) fn get_str(v: &serde_json::Value) -> (r: Option<String>)
    ensures
        match r {
            Some(s) => str_of(Some(json_view(*v))) == Some(s@),
            None => str_of(Some(json_view(*v))).is_none(),
        },
{
    v.as_str().map(|s| s.to_string())
}

/// Relies on `serde_json::Value::as_u64`: a number stored as a non-negative
/// integer, `None` for negative integers, floats and other kinds.
#[verifier::external_body]
pub(crate) fn get_u64(v: &serde_json::Value) -> (r: Option<u64>)
    ensures
        r == u64_of(Some(json_view(*v))),
{
    v.as_u64()
}

/// Relies on `serde_json::Value::as_array`: the items of an array value,
/// `None` for any other kind.
#[verifier::external_body]
pub(crate) fn get_array(v: &serde_json::Value) -> (r: Option<&Vec<serde_json::Value>>)
    ensures
        match r {
            Some(items) => array_of(Some(json_view(*v))) == Some(views_of(items@)),
            None => array_of(Some(json_view(*v))).is_none(),
        },
{
    v.as_array()
}

/// Relies on the `Clone` impl of `serde_json::Value`: the copy holds the same
/// value.
#[verifier::external_body]
pub(crate) fn copy_value(v: &serde_json::Value) -> (r: serde_json::Value)
    ensures
        json_view(r) == json_view(*v),
{
    v.clone()
}

} // verus!
