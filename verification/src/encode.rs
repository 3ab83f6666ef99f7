//! Writing values as JSON: the trait that every value of the wire format
//! implements, and the helpers that put members into an object.

use vstd::prelude::*;
use vstd::string::StringExecFns;
use crate::json::{
    Json, JsonNumber, json_array, json_bool, json_i64, json_of, json_seq, json_string, json_u64,
    map_insert, member, members_of,
};

verus! {

/// A value with a JSON wire shape.
pub trait ToJson {
    /// The document that the value is written as.
    spec fn json(&self) -> Json;

    /// Writes the value as a document.
    fn to_value(&self) -> (v: serde_json::Value)
        ensures
            json_of(v) == self.json(),
    ;
}

/// The documents of a sequence of values, in order.
pub open spec fn json_each<T: ToJson>(items: Seq<T>) -> Seq<Json> {
    items.map_values(|t: T| t.json())
}

/// The members of an object after an optional field: a field that is set is
/// a member under its key, one that is not set leaves no trace.
pub open spec fn with_opt<T: ToJson>(
    m: Map<Seq<char>, Json>,
    key: Seq<char>,
    field: Option<T>,
) -> Map<Seq<char>, Json> {
    match field {
        Some(t) => m.insert(key, t.json()),
        None => m,
    }
}

/// The document of an optional field, if it is set.
pub open spec fn opt_json<T: ToJson>(field: Option<T>) -> Option<Json> {
    match field {
        Some(t) => Some(t.json()),
        None => None,
    }
}

/// The tag of a document: the string under `type`, or the empty string for a
/// document that has none.
pub open spec fn tag_of(j: Json) -> Seq<char> {
    match member(j, "type"@) {
        Some(Json::Str(tag)) => tag,
        _ => Seq::empty(),
    }
}

impl ToJson for String {
    open spec fn json(&self) -> Json {
        Json::Str(self@)
    }

    fn to_value(&self) -> (v: serde_json::Value) {
        json_string(self.clone())
    }
}

impl ToJson for bool {
    open spec fn json(&self) -> Json {
        Json::Bool(*self)
    }

    fn to_value(&self) -> (v: serde_json::Value) {
        json_bool(*self)
    }
}

impl ToJson for u32 {
    open spec fn json(&self) -> Json {
        Json::Number(JsonNumber::Int(*self as int))
    }

    fn to_value(&self) -> (v: serde_json::Value) {
        json_u64(*self as u64)
    }
}

impl ToJson for i64 {
    open spec fn json(&self) -> Json {
        Json::Number(JsonNumber::Int(*self as int))
    }

    fn to_value(&self) -> (v: serde_json::Value) {
        json_i64(*self)
    }
}

impl<T: ToJson> ToJson for Vec<T> {
    open spec fn json(&self) -> Json {
        Json::Array(json_each(self@))
    }

    fn to_value(&self) -> (v: serde_json::Value) {
        let mut out: Vec<serde_json::Value> = Vec::new();
        let mut i: usize = 0;
        while i < self.len()
            invariant
                i <= self.len(),
                json_seq(out@) == json_each(self@.take(i as int)),
            decreases self.len() - i,
        {
            let v = self[i].to_value();
            proof {
                assert(json_seq(out@.push(v)) =~= json_seq(out@).push(json_of(v)));
                assert(self@.take(i + 1) =~= self@.take(i as int).push(self@[i as int]));
                assert(json_each(self@.take(i + 1)) =~= json_each(self@.take(i as int)).push(
                    self@[i as int].json(),
                ));
            }
            out.push(v);
            i += 1;
        }
        proof {
            assert(self@.take(i as int) =~= self@);
        }
        json_array(out)
    }
}

/// Puts the `type` member, which tells the kinds of a union apart.
pub fn put_tag(m: &mut serde_json::Map<String, serde_json::Value>, tag: &str)
    ensures
        members_of(*final(m)) == members_of(*old(m)).insert("type"@, Json::Str(tag@)),
{
    map_insert(m, String::from_str("type"), json_string(String::from_str(tag)));
}

/// Puts a field under its key.
pub fn put<T: ToJson>(m: &mut serde_json::Map<String, serde_json::Value>, key: &str, field: &T)
    ensures
        members_of(*final(m)) == members_of(*old(m)).insert(key@, field.json()),
{
    map_insert(m, String::from_str(key), field.to_value());
}

/// Puts an optional field under its key where it is set, and nothing where
/// it is not.
pub fn put_opt<T: ToJson>(
    m: &mut serde_json::Map<String, serde_json::Value>,
    key: &str,
    field: &Option<T>,
)
    ensures
        members_of(*final(m)) == with_opt(members_of(*old(m)), key@, *field),
{
    match field {
        Some(t) => {
            map_insert(m, String::from_str(key), t.to_value());
        },
        None => {},
    }
}

} // verus!
