//! The slice of `serde_json` that response interpretation reads: parsing
//! text into a value, object member lookup, and scalar projections.

use vstd::prelude::*;

verus! {

#[verifier::external_type_specification]
#[verifier::external_body]
pub struct ExJsonValue(serde_json::Value);

/// Numbers as `serde_json` stores them; a float's value is not modelled.
pub enum JsonNumber {
    PosInt(u64),
    NegInt(i64),
    Float,
}

/// One level of a JSON value: scalars by value, containers holding the
/// nested values.
pub enum JsonShape {
    Null,
    Bool(bool),
    Number(JsonNumber),
    Text(Seq<char>),
    Array(Seq<serde_json::Value>),
    Object(Map<Seq<char>, serde_json::Value>),
}

/// What `serde_json::from_str::<Value>` gives for a text: the value, or the
/// error's message.
pub uninterp spec fn json_parse(raw: Seq<char>) -> Result<serde_json::Value, Seq<char>>;

/// What a `serde_json::Value` holds, one level deep.
pub uninterp spec fn json_shape(v: serde_json::Value) -> JsonShape;

/// The compact text that `Value`'s `Display` writes.
pub uninterp spec fn json_text(v: serde_json::Value) -> Seq<char>;

/// The member `key` of an object; `None` for a missing key or a non-object.
pub open spec fn json_member(v: serde_json::Value, key: Seq<char>) -> Option<serde_json::Value> {
    match json_shape(v) {
        JsonShape::Object(m) => if m.contains_key(key) {
            Some(m[key])
        } else {
            None
        },
        _ => None,
    }
}

/// The string held by `v`, if it is a JSON string.
pub open spec fn json_as_text(v: serde_json::Value) -> Option<Seq<char>> {
    match json_shape(v) {
        JsonShape::Text(s) => Some(s),
        _ => None,
    }
}

/// The boolean held by `v`, if it is a JSON boolean.
pub open spec fn json_as_boolean(v: serde_json::Value) -> Option<bool> {
    match json_shape(v) {
        JsonShape::Bool(b) => Some(b),
        _ => None,
    }
}

/// The integer held by `v`, if it is a JSON integer that fits in `i64`.
pub open spec fn json_as_int(v: serde_json::Value) -> Option<i64> {
    match json_shape(v) {
        JsonShape::Number(JsonNumber::PosInt(n)) => if n <= i64::MAX {
            Some(n as i64)
        } else {
            None
        },
        JsonShape::Number(JsonNumber::NegInt(n)) => Some(n),
        _ => None,
    }
}

/// The member `key` of object `v` projected to a string.
pub open spec fn member_text(v: serde_json::Value, key: Seq<char>) -> Option<Seq<char>> {
    match json_member(v, key) {
        Some(m) => json_as_text(m),
        None => None,
    }
}

/// The member `key` of object `v` projected to a boolean.
pub open spec fn member_bool(v: serde_json::Value, key: Seq<char>) -> Option<bool> {
    match json_member(v, key) {
        Some(m) => json_as_boolean(m),
        None => None,
    }
}

/// The member `key` of object `v` projected to an integer.
pub open spec fn member_int(v: serde_json::Value, key: Seq<char>) -> Option<i64> {
    match json_member(v, key) {
        Some(m) => json_as_int(m),
        None => None,
    }
}

/// `Value`'s `Clone`: an equal value.
pub assume_specification[ <serde_json::Value as Clone>::clone ](v: &serde_json::Value) -> (r: serde_json::Value)
    ensures
        r == *v,
;

/// `serde_json::from_str::<serde_json::Value>`: the parsed value, or the
/// parse error's `Display` text. Claims only that this is the named result
/// of the text.
#[verifier::external_body]
pub(crate) fn parse_json(raw: &str) -> (res: Result<serde_json::Value, String>)
    ensures
        match res {
            Ok(v) => json_parse(raw@) == Ok::<serde_json::Value, Seq<char>>(v),
            Err(e) => json_parse(raw@) == Err::<serde_json::Value, Seq<char>>(e@),
        },
{
    match serde_json::from_str::<serde_json::Value>(raw) {
        Ok(v) => Ok(v),
        Err(e) => Err(e.to_string()),
    }
}

/// `serde_json::Value::get` with a string key: the member of an object,
/// `None` for a missing key or any non-object value.
#[verifier::external_body]
pub(crate) fn json_get<'a>(v: &'a serde_json::Value, key: &str) -> (res: Option<&'a serde_json::Value>)
    ensures
        match json_member(*v, key@) {
            Some(m) => res matches Some(r) && *r == m,
            None => res is None,
        },
{
    v.get(key)
}

/// `serde_json::Value::is_object`: whether the value is a JSON object.
#[verifier::external_body]
pub(crate) fn json_is_object(v: &serde_json::Value) -> (b: bool)
    ensures
        b == (json_shape(*v) is Object),
{
    v.is_object()
}

/// `serde_json::Value::as_str`, copied out: the string of a JSON string.
#[verifier::external_body]
pub(crate) fn json_as_str(v: &serde_json::Value) -> (res: Option<String>)
    ensures
        match json_as_text(*v) {
            Some(s) => res matches Some(r) && r@ == s,
            None => res is None,
        },
{
    match v.as_str() {
        Some(s) => Some(s.to_owned()),
        None => None,
    }
}

/// `serde_json::Value::as_bool`: the boolean of a JSON boolean.
#[verifier::external_body]
pub(crate) fn json_as_bool(v: &serde_json::Value) -> (res: Option<bool>)
    ensures
        res == json_as_boolean(*v),
{
    v.as_bool()
}

/// `serde_json::Value::as_i64`: a JSON integer within `i64`'s range.
#[verifier::external_body]
pub(crate) fn json_as_i64(v: &serde_json::Value) -> (res: Option<i64>)
    ensures
        res == json_as_int(*v),
{
    v.as_i64()
}

/// `Value`'s `Display` (through `to_string`): the compact JSON text.
#[verifier::external_body]
pub(crate) fn json_to_text(v: &serde_json::Value) -> (res: String)
    ensures
        res@ == json_text(*v),
{
    v.to_string()
}

} // verus!
