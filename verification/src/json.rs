//! A mathematical model of JSON documents, and the boundary to `serde_json`,
//! the crate that holds and prints them.
//!
//! The contracts on items of `serde_json` in this file are not proved: each
//! states what the named item does, and the rest of the crate is proved
//! from them.

use vstd::prelude::*;

verus! {

/// A JSON number as far as contracts tell numbers apart, by how the value
/// holds it.
pub enum JsonNumber {
    /// A number that is held as an integer, with its value.
    Int(int),
    /// A number that is held in floating point, whatever its value: `1.0` is
    /// one, `1` is not.
    Fraction,
}

/// Mathematical model of a JSON document. The members of an object are a map
/// from key to document: the model does not say in which order they are
/// written.
pub enum Json {
    Null,
    Bool(bool),
    Number(JsonNumber),
    Str(Seq<char>),
    Array(Seq<Json>),
    Object(Map<Seq<char>, Json>),
}

/// `serde_json::Value`: a JSON value. What it holds is known through
/// [`json_of`] alone.
#[verifier::external_type_specification]
#[verifier::external_body]
pub struct ExValue(serde_json::Value);

/// `serde_json::Error`: why a value could not be written or read. It is
/// carried through as it is.
#[verifier::external_type_specification]
#[verifier::external_body]
pub struct ExError(serde_json::Error);

/// `serde_json::Map`: the members of a JSON object. What it holds is known
/// through [`members_of`] alone.
#[verifier::external_type_specification]
#[verifier::external_body]
#[verifier::reject_recursive_types(K)]
#[verifier::reject_recursive_types(V)]
pub struct ExMap<K, V>(serde_json::Map<K, V>);

/// The document that a `serde_json::Value` holds.
pub uninterp spec fn json_of(v: serde_json::Value) -> Json;

/// The text that `serde_json::to_string` writes a value as.
pub uninterp spec fn json_text(v: serde_json::Value) -> Seq<char>;

/// The members that a `serde_json::Map` holds, by key.
pub uninterp spec fn members_of(m: serde_json::Map<String, serde_json::Value>) -> Map<
    Seq<char>,
    Json,
>;

/// The members of an object that has none.
pub open spec fn no_members() -> Map<Seq<char>, Json> {
    Map::empty()
}

/// The documents that a sequence of values holds, in order.
pub open spec fn json_seq(s: Seq<serde_json::Value>) -> Seq<Json> {
    s.map_values(|v: serde_json::Value| json_of(v))
}

/// The member of an object under a key; `None` for a document that is no
/// object or has no such member.
pub open spec fn member(j: Json, key: Seq<char>) -> Option<Json> {
    match j {
        Json::Object(m) => if m.contains_key(key) {
            Some(m[key])
        } else {
            None
        },
        _ => None,
    }
}

/// `Clone` for `serde_json::Value`: the copy holds the same document.
pub assume_specification[ <serde_json::Value as Clone>::clone ](v: &serde_json::Value) -> (r:
    serde_json::Value)
    ensures
        json_of(r) == json_of(*v),
;

/// `serde_json::Value::String`: the value that holds the given string.
#[verifier::external_body]
pub(crate) fn json_string(s: String) -> (v: serde_json::Value)
    ensures
        json_of(v) == Json::Str(s@),
{
    serde_json::Value::String(s)
}

/// `serde_json::Value::Bool`: the value that holds the given boolean.
#[verifier::external_body]
pub(crate) fn json_bool(b: bool) -> (v: serde_json::Value)
    ensures
        json_of(v) == Json::Bool(b),
{
    serde_json::Value::Bool(b)
}

/// `From<u64>` for `serde_json::Value`: the number with the given value.
#[verifier::external_body]
pub(crate) fn json_u64(n: u64) -> (v: serde_json::Value)
    ensures
        json_of(v) == Json::Number(JsonNumber::Int(n as int)),
{
    serde_json::Value::from(n)
}

/// `From<i64>` for `serde_json::Value`: the number with the given value.
#[verifier::external_body]
pub(crate) fn json_i64(n: i64) -> (v: serde_json::Value)
    ensures
        json_of(v) == Json::Number(JsonNumber::Int(n as int)),
{
    serde_json::Value::from(n)
}

/// `serde_json::Value::Array`: the value that holds the given values, in
/// order.
#[verifier::external_body]
pub(crate) fn json_array(items: Vec<serde_json::Value>) -> (v: serde_json::Value)
    ensures
        json_of(v) == Json::Array(json_seq(items@)),
{
    serde_json::Value::Array(items)
}

/// `serde_json::Map::new`: a map without members.
#[verifier::external_body]
pub(crate) fn map_new() -> (m: serde_json::Map<String, serde_json::Value>)
    ensures
        members_of(m) == no_members(),
{
    serde_json::Map::new()
}

/// `serde_json::Map::insert`: the map holds the value under the key, in
/// place of what it held there before; its other members stay.
#[verifier::external_body]
pub(crate) fn map_insert(
    m: &mut serde_json::Map<String, serde_json::Value>,
    key: String,
    value: serde_json::Value,
)
    ensures
        members_of(*final(m)) == members_of(*old(m)).insert(key@, json_of(value)),
{
    m.insert(key, value);
}

/// `serde_json::Value::Object`: the value that holds the given map.
#[verifier::external_body]
pub(crate) fn json_object(m: serde_json::Map<String, serde_json::Value>) -> (v: serde_json::Value)
    ensures
        json_of(v) == Json::Object(members_of(m)),
{
    serde_json::Value::Object(m)
}

/// `serde_json::Value::get` with a string index: the member under the key
/// where the value is an object that has one, else `None`.
#[verifier::external_body]
pub(crate) fn json_get<'a>(
    v: &'a serde_json::Value,
    key: &str,
) -> (r: Option<&'a serde_json::Value>)
    ensures
        match r {
            Some(found) => member(json_of(*v), key@) == Some(json_of(*found)),
            None => member(json_of(*v), key@) is None,
        },
{
    v.get(key)
}

/// `serde_json::Value::as_str`: the string that the value holds, `None`
/// where it holds no string.
#[verifier::external_body]
pub(crate) fn json_as_str<'a>(v: &'a serde_json::Value) -> (r: Option<&'a str>)
    ensures
        match r {
            Some(s) => json_of(*v) == Json::Str(s@),
            None => !(json_of(*v) is Str),
        },
{
    v.as_str()
}

/// `serde_json::Value::as_array`: the items that the value holds, `None`
/// where it holds no array.
#[verifier::external_body]
pub(crate) fn json_as_array<'a>(v: &'a serde_json::Value) -> (r: Option<&'a Vec<serde_json::Value>>)
    ensures
        match r {
            Some(items) => json_of(*v) == Json::Array(json_seq(items@)),
            None => !(json_of(*v) is Array),
        },
{
    v.as_array()
}

/// `serde_json::Value::as_u64`: the number that the value holds where that
/// is an integer of at least zero, else `None`.
#[verifier::external_body]
pub(crate) fn json_as_u64(v: &serde_json::Value) -> (r: Option<u64>)
    ensures
        match r {
            Some(n) => json_of(*v) == Json::Number(JsonNumber::Int(n as int)),
            None => !(json_of(*v) matches Json::Number(JsonNumber::Int(n)) && n >= 0),
        },
{
    v.as_u64()
}

/// `serde_json::to_string` on a value: the text that the value is written
/// as. It succeeds on every value: the text goes into memory, and writing a
/// value fails only where the writer does.
#[verifier::external_body]
pub(crate) fn json_to_string(v: &serde_json::Value) -> (r: Result<String, serde_json::Error>)
    ensures
        r is Ok,
        r matches Ok(text) ==> text@ == json_text(*v),
{
    serde_json::to_string(v)
}

} // verus!
