//! The JSON values of `serde_json`, as far as this library reads and writes them.
//!
//! Nothing in this file is proved. A JSON value is opaque to the verifier; the
//! functions without a body below give names to what the calls into
//! `serde_json` return, and each function marked `external_body` makes one
//! such call and states that it returns what the name says. The rest of the
//! library is verified against these statements.

use vstd::prelude::*;

verus! {

/// `serde_json::Value`: any JSON value. Nothing is known of what it holds but
/// through the functions of this file.
#[verifier::external_type_specification]
#[verifier::external_body]
pub struct ExValue(serde_json::Value);

/// `serde_json::Map`: the members of a JSON object, by key.
#[verifier::external_type_specification]
#[verifier::external_body]
#[verifier::reject_recursive_types(K)]
#[verifier::reject_recursive_types(V)]
pub struct ExMap<K, V>(serde_json::Map<K, V>);

/// `serde_json::Error`: why a text could not be read or written as JSON.
#[verifier::external_type_specification]
#[verifier::external_body]
pub struct ExError(serde_json::Error);

/// What `Value::from` returns for a string: the JSON string with these
/// characters.
pub uninterp spec fn json_string(s: Seq<char>) -> serde_json::Value;

/// What `serde_json::to_string` returns for a JSON value: its compact text, or
/// `None` where the call reports an error.
pub uninterp spec fn json_text(v: serde_json::Value) -> Option<Seq<char>>;

/// What `serde_json::from_str` returns when it is asked for a `Value`: the
/// value that the text denotes, or `None` where the call reports an error.
pub uninterp spec fn json_parsed(text: Seq<char>) -> Option<serde_json::Value>;

/// What `Value::as_u64` returns: the number, where the value is an integer
/// that is not negative and fits in 64 bits.
pub uninterp spec fn json_u64(v: serde_json::Value) -> Option<u64>;

/// What `Value::as_bool` returns: the truth value, where the value is `true`
/// or `false`.
pub uninterp spec fn json_bool(v: serde_json::Value) -> Option<bool>;

/// What `Value::as_str` returns: the characters, where the value is a string.
pub uninterp spec fn json_str(v: serde_json::Value) -> Option<Seq<char>>;

/// What `Value::as_array` returns: the elements in order, where the value is
/// an array.
pub uninterp spec fn json_array(v: serde_json::Value) -> Option<Seq<serde_json::Value>>;

/// What `Value::as_object` returns: the map of the members, where the value
/// is an object.
pub uninterp spec fn json_map(v: serde_json::Value) -> Option<
    serde_json::Map<String, serde_json::Value>,
>;

/// What a map holds: what `Map::iter` hands out, the members with their
/// keys, in the map's order. The library asks `serde_json` to keep the order
/// of insertion, so for a value that was read from a text this is the order
/// of the text. It does not depend on how the keys are hashed.
pub uninterp spec fn map_members(map: serde_json::Map<String, serde_json::Value>) -> Seq<
    (Seq<char>, serde_json::Value),
>;

/// The members of an object with their keys, in the order in which its map
/// hands them out; `None` where the value is no object.
pub open spec fn json_object(v: serde_json::Value) -> Option<Seq<(Seq<char>, serde_json::Value)>> {
    match json_map(v) {
        Some(map) => Some(map_members(map)),
        None => None,
    }
}

/// The keys and values behind a list of borrowed members.
pub open spec fn members_of(borrowed: Seq<(&String, &serde_json::Value)>) -> Seq<
    (Seq<char>, serde_json::Value),
> {
    Seq::new(borrowed.len(), |i: int| (borrowed[i].0@, *borrowed[i].1))
}

/// Calls `Value::from` on a string. The result is the JSON string with the
/// characters of the argument.
#[verifier::external_body]
pub(crate) fn string_value(s: &str) -> (v: serde_json::Value)
    ensures
        v == json_string(s@),
{
    serde_json::Value::from(s)
}

/// Calls `serde_json::to_string` on a JSON value. The result is its compact
/// text, or the error of the call.
#[verifier::external_body]
pub(crate) fn value_text(v: &serde_json::Value) -> (r: Result<String, serde_json::Error>)
    ensures
        match r {
            Ok(t) => json_text(*v) == Some(t@),
            Err(_) => json_text(*v) is None,
        },
{
    serde_json::to_string(v)
}

/// Calls `serde_json::from_str` for a `Value`. The result is the value that
/// the text denotes, or the error that says why it denotes none.
#[verifier::external_body]
pub(crate) fn parse(text: &str) -> (r: Result<serde_json::Value, serde_json::Error>)
    ensures
        match r {
            Ok(v) => json_parsed(text@) == Some(v),
            Err(_) => json_parsed(text@) is None,
        },
{
    serde_json::from_str(text)
}

/// Calls `Value::as_u64`.
#[verifier::external_body]
pub(crate) fn as_u64(v: &serde_json::Value) -> (r: Option<u64>)
    ensures
        r == json_u64(*v),
{
    v.as_u64()
}

/// Calls `Value::as_bool`.
#[verifier::external_body]
pub(crate) fn as_bool(v: &serde_json::Value) -> (r: Option<bool>)
    ensures
        r == json_bool(*v),
{
    v.as_bool()
}

/// Calls `Value::as_str`. The result borrows the characters of a string value.
#[verifier::external_body]
pub(crate) fn as_str(v: &serde_json::Value) -> (r: Option<&str>)
    ensures
        match r {
            Some(s) => json_str(*v) == Some(s@),
            None => json_str(*v) is None,
        },
{
    v.as_str()
}

/// Calls `Value::as_array`. The result borrows the elements of an array value.
#[verifier::external_body]
pub(crate) fn as_array(v: &serde_json::Value) -> (r: Option<&Vec<serde_json::Value>>)
    ensures
        match r {
            Some(a) => json_array(*v) == Some(a@),
            None => json_array(*v) is None,
        },
{
    v.as_array()
}

/// Calls `Value::as_object`. The result borrows the map of an object value.
#[verifier::external_body]
pub(crate) fn as_object(v: &serde_json::Value) -> (r: Option<
    &serde_json::Map<String, serde_json::Value>,
>)
    ensures
        match r {
            Some(map) => json_map(*v) == Some(*map),
            None => json_map(*v) is None,
        },
{
    v.as_object()
}

/// Calls `Map::iter` and collects what it hands out. The result borrows the
/// members of the map, keys and values, in the map's order.
#[verifier::external_body]
pub(crate) fn members<'a>(map: &'a serde_json::Map<String, serde_json::Value>) -> (r: Vec<
    (&'a String, &'a serde_json::Value),
>)
    ensures
        members_of(r@) == map_members(*map),
{
    map.iter().collect()
}

} // verus!
