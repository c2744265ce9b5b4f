//! The JSON values that events carry, and everything this library takes on
//! trust about `serde_json`.
//!
//! A JSON value is opaque here: the library moves values around, asks
//! `serde_json` for their text and for the few shapes it has to tell apart,
//! and never looks inside by itself. The contracts in this file are believed,
//! not proved.

use serde_json::Value;
use vstd::prelude::*;

verus! {

/// A JSON value of `serde_json`.
#[verifier::external_type_specification]
#[verifier::external_body]
pub struct ExValue(Value);

/// The key/value collection behind a JSON object.
#[verifier::external_type_specification]
#[verifier::external_body]
#[verifier::reject_recursive_types(K)]
#[verifier::reject_recursive_types(V)]
pub struct ExMap<K, V>(serde_json::Map<K, V>);

/// The error of `serde_json`'s parser.
#[verifier::external_type_specification]
#[verifier::external_body]
pub struct ExError(serde_json::Error);

/// A JSON object: string keys, each with one value.
pub type Object = serde_json::Map<String, Value>;

/// The entries of a JSON object, in the order in which the object hands them
/// out.
pub uninterp spec fn entries(m: Object) -> Seq<(Seq<char>, Value)>;

/// The compact JSON text of a value.
pub uninterp spec fn json_text(v: Value) -> Seq<char>;

/// The JSON string value with the given content.
pub uninterp spec fn text_value(s: Seq<char>) -> Value;

/// The value that a JSON text denotes, if it is well-formed JSON.
pub uninterp spec fn json_parse(s: Seq<char>) -> Option<Value>;

/// Whether a value is JSON `null`.
pub uninterp spec fn is_null(v: Value) -> bool;

/// The content of a value that is a JSON string.
pub uninterp spec fn as_string(v: Value) -> Option<Seq<char>>;

/// The entries of a value that is a JSON object.
pub uninterp spec fn as_members(v: Value) -> Option<Seq<(Seq<char>, Value)>>;

/// The items of a value that is a JSON array.
pub uninterp spec fn as_items(v: Value) -> Option<Seq<Value>>;

/// Whether some entry has the given key.
pub open spec fn has_key(es: Seq<(Seq<char>, Value)>, key: Seq<char>) -> bool {
    exists|i: int| 0 <= i < es.len() && (#[trigger] es[i]).0 == key
}

/// The value of an entry with the given key.
pub open spec fn value_of(es: Seq<(Seq<char>, Value)>, key: Seq<char>) -> Value {
    es[choose|i: int| 0 <= i < es.len() && (#[trigger] es[i]).0 == key].1
}

/// Entries read as a finite map from key to value.
pub open spec fn to_map(es: Seq<(Seq<char>, Value)>) -> Map<Seq<char>, Value> {
    Map::new(|k: Seq<char>| has_key(es, k), |k: Seq<char>| value_of(es, k))
}

/// What an object holds, key by key.
pub open spec fn fields(m: Object) -> Map<Seq<char>, Value> {
    to_map(entries(m))
}

/// The JSON text of a string: quoted and escaped.
pub open spec fn quoted(s: Seq<char>) -> Seq<char> {
    json_text(text_value(s))
}

/// `Value::clone`: a copy that equals the value.
pub assume_specification[ <Value as Clone>::clone ](v: &Value) -> (r: Value)
    ensures
        r == *v,
;

/// `Map::clone`: a copy that equals the object.
pub assume_specification[ <serde_json::Map<String, Value> as Clone>::clone ](
    m: &serde_json::Map<String, Value>,
) -> (r: serde_json::Map<String, Value>)
    ensures
        r == *m,
;

/// `Map::new`: an object without entries.
#[verifier::external_body]
pub(crate) fn empty_object() -> (m: Object)
    ensures
        entries(m) == Seq::<(Seq<char>, Value)>::empty(),
{
    serde_json::Map::new()
}

/// `Map::contains_key`: whether the object has an entry under the key.
#[verifier::external_body]
pub(crate) fn contains_key(m: &Object, key: &str) -> (r: bool)
    ensures
        r == fields(*m).dom().contains(key@),
{
    m.contains_key(key)
}

/// `Map::remove`: takes the entry under the key out of the object and
/// returns its value; every other entry stays as it was.
#[verifier::external_body]
pub(crate) fn remove(m: &mut Object, key: &str) -> (r: Option<Value>)
    ensures
        fields(*final(m)) == fields(*old(m)).remove(key@),
        r == (if fields(*old(m)).dom().contains(key@) {
            Some(fields(*old(m))[key@])
        } else {
            None
        }),
{
    m.remove(key)
}

/// `Map::insert`: puts the value under the key, replacing and returning the
/// value that was there; every other entry stays as it was.
#[verifier::external_body]
pub(crate) fn insert(m: &mut Object, key: String, value: Value) -> (r: Option<Value>)
    ensures
        fields(*final(m)) == fields(*old(m)).insert(key@, value),
        r == (if fields(*old(m)).dom().contains(key@) {
            Some(fields(*old(m))[key@])
        } else {
            None
        }),
{
    m.insert(key, value)
}

/// `Map::iter`: the entries in the object's own order, each one copied out.
#[verifier::external_body]
pub(crate) fn object_entries(m: &Object) -> (r: Vec<(String, Value)>)
    ensures
        r.len() == entries(*m).len(),
        forall|i: int|
            0 <= i < r.len() ==> (#[trigger] r[i]).0@ == entries(*m)[i].0 && r[i].1 == entries(
                *m,
            )[i].1,
{
    m.iter().map(|(k, v)| (k.clone(), v.clone())).collect()
}

/// `Value`'s `Display`: the compact JSON text of the value.
#[verifier::external_body]
pub(crate) fn value_text(v: &Value) -> (r: String)
    ensures
        r@ == json_text(*v),
{
    v.to_string()
}

/// `Value::from(&str)`: the JSON string with this content.
#[verifier::external_body]
pub(crate) fn string_value(s: &str) -> (v: Value)
    ensures
        v == text_value(s@),
{
    Value::from(s)
}

/// `Value::default`: JSON `null`.
#[verifier::external_body]
pub(crate) fn null_value() -> (v: Value)
    ensures
        is_null(v),
{
    Value::default()
}

/// `Value::is_null`.
#[verifier::external_body]
pub(crate) fn value_is_null(v: &Value) -> (r: bool)
    ensures
        r == is_null(*v),
{
    v.is_null()
}

/// `Value::as_str`: the content of a JSON string, and nothing for any other
/// value.
#[verifier::external_body]
pub(crate) fn value_as_text(v: &Value) -> (r: Option<String>)
    ensures
        match r {
            Some(s) => as_string(*v) == Some(s@),
            None => as_string(*v) is None,
        },
{
    v.as_str().map(|s| s.to_owned())
}

/// The object behind a value, as `Value::as_object` tells it apart: the
/// `Object` variant gives its map, any other value nothing.
#[verifier::external_body]
pub(crate) fn into_object(v: Value) -> (r: Option<Object>)
    ensures
        match r {
            Some(m) => as_members(v) == Some(entries(m)),
            None => as_members(v) is None,
        },
{
    match v {
        Value::Object(m) => Some(m),
        _ => None,
    }
}

/// The items behind a value, as `Value::as_array` tells them apart: the
/// `Array` variant gives its items, any other value nothing.
#[verifier::external_body]
pub(crate) fn into_items(v: Value) -> (r: Option<Vec<Value>>)
    ensures
        match r {
            Some(items) => as_items(v) == Some(items@),
            None => as_items(v) is None,
        },
{
    match v {
        Value::Array(items) => Some(items),
        _ => None,
    }
}

/// `serde_json::from_str` at type `Value`: the value that the text denotes,
/// or the parser's error where the text is not one JSON value.
#[verifier::external_body]
pub(crate) fn parse_json(s: &str) -> (r: Result<Value, serde_json::Error>)
    ensures
        match r {
            Ok(v) => json_parse(s@) == Some(v),
            Err(_) => json_parse(s@) is None,
        },
{
    serde_json::from_str::<Value>(s)
}

} // verus!
