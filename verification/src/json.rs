//! Structured values: the `serde_json` types the bridge carries, a
//! mathematical model of what they hold, and the contracts under which the
//! bridge calls into `serde_json`.
//!
//! Nothing in this module is proved. Each item states what `serde_json` does;
//! the rest of the crate is verified against these statements.

use crate::order::ascending;
use serde_json::Value;
use vstd::prelude::*;

verus! {

/// `serde_json::Value`, carried through the bridge without looking inside.
#[verifier::external_type_specification]
#[verifier::external_body]
pub struct ExValue(serde_json::Value);

/// `serde_json::Map`, the object type of `serde_json`.
#[verifier::external_type_specification]
#[verifier::external_body]
#[verifier::reject_recursive_types(K)]
#[verifier::reject_recursive_types(V)]
pub struct ExMap<K, V>(serde_json::Map<K, V>);

/// `serde_json::Error`, what parsing and printing report on failure.
#[verifier::external_type_specification]
#[verifier::external_body]
pub struct ExError(serde_json::Error);

/// A number as JSON tells numbers apart: one written as an integer, or one
/// held as a binary64 value, given by its bit pattern.
pub enum JsonNumber {
    Integer(int),
    Binary64(u64),
}

/// The mathematical model of a structured value.
pub enum Json {
    Null,
    Bool(bool),
    Number(JsonNumber),
    Text(Seq<char>),
    Array(Seq<Json>),
    Object(Map<Seq<char>, Json>),
}

/// What a `serde_json::Value` holds.
pub uninterp spec fn json_of(v: Value) -> Json;

/// What a `serde_json::Map` holds: each key with the value stored under it.
pub uninterp spec fn object_of(m: serde_json::Map<String, Value>) -> Map<Seq<char>, Json>;

/// What `serde_json::from_str` makes of a text: the value it denotes, or
/// `None` where the text is not well-formed JSON.
pub uninterp spec fn parse_of(text: Seq<char>) -> Option<Json>;

/// The compact JSON text that `serde_json::to_string` writes for a value.
pub uninterp spec fn text_of(j: Json) -> Seq<char>;

/// Whether a text is well-formed JSON.
pub open spec fn is_well_formed(text: Seq<char>) -> bool {
    parse_of(text) is Some
}

/// `serde_json::from_str` at type `Value`. The outcome depends on the text
/// alone: success with the value the text denotes, or an error exactly where
/// the text is not well-formed.
#[verifier::external_body]
pub(crate) fn parse(text: &str) -> (r: Result<Value, serde_json::Error>)
    ensures
        match r {
            Ok(v) => parse_of(text@) == Some(json_of(v)),
            Err(_) => parse_of(text@) is None,
        },
{
    serde_json::from_str(text)
}

/// `serde_json::to_string` on a map: always the compact JSON of the object
/// the map holds. It can fail only where a `Serialize` impl chooses to fail,
/// where a map has keys that are not strings, or where the writer fails. The
/// impls of `Map<String, Value>` and of `Value` only pass on what the
/// serializer reports, the keys are strings, and the writer is a `Vec<u8>`.
#[verifier::external_body]
pub(crate) fn print(m: &serde_json::Map<String, Value>) -> (r: Result<String, serde_json::Error>)
    ensures
        match r {
            Ok(s) => s@ == text_of(Json::Object(object_of(*m))),
            Err(_) => false,
        },
{
    serde_json::to_string(m)
}

/// `Display` of `serde_json::Error`: the error in words. Nothing is claimed
/// of the wording.
#[verifier::external_body]
pub(crate) fn error_text(e: &serde_json::Error) -> (r: String) {
    e.to_string()
}

/// `Value::as_str`: the text of a string value, `None` for any other value.
#[verifier::external_body]
pub(crate) fn as_text(v: &Value) -> (r: Option<&str>)
    ensures
        match r {
            Some(s) => json_of(*v) == Json::Text(s@),
            None => !(json_of(*v) is Text),
        },
{
    v.as_str()
}

/// `Value::as_object`: the map of an object value, `None` for any other
/// value.
#[verifier::external_body]
pub(crate) fn as_object(v: &Value) -> (r: Option<&serde_json::Map<String, Value>>)
    ensures
        match r {
            Some(m) => json_of(*v) == Json::Object(object_of(*m)),
            None => !(json_of(*v) is Object),
        },
{
    v.as_object()
}

/// `Clone` of `serde_json::Value`: a value that holds the same.
pub assume_specification[ <serde_json::Value as Clone>::clone ](v: &serde_json::Value) -> (r:
    serde_json::Value)
    ensures
        json_of(r) == json_of(*v),
;

/// `Clone` of `serde_json::Map`: a map that holds the same.
pub assume_specification[ <serde_json::Map<String, serde_json::Value> as Clone>::clone ](
    m: &serde_json::Map<String, serde_json::Value>,
) -> (r: serde_json::Map<String, serde_json::Value>)
    ensures
        object_of(r) == object_of(*m),
;

/// `Value::String`: the string value with the given text.
#[verifier::external_body]
pub(crate) fn text_value(s: String) -> (r: Value)
    ensures
        json_of(r) == Json::Text(s@),
{
    Value::String(s)
}

/// `From<u16> for Value`: the integer number with the given value.
#[verifier::external_body]
pub(crate) fn number_value(n: u16) -> (r: Value)
    ensures
        json_of(r) == Json::Number(JsonNumber::Integer(n as int)),
{
    Value::from(n)
}

/// `Value::Object`: the object value that holds what the map holds.
#[verifier::external_body]
pub(crate) fn object_value(m: serde_json::Map<String, Value>) -> (r: Value)
    ensures
        json_of(r) == Json::Object(object_of(m)),
{
    Value::Object(m)
}

/// `Map::new`: a map that holds nothing.
#[verifier::external_body]
pub(crate) fn empty_object() -> (r: serde_json::Map<String, Value>)
    ensures
        object_of(r) == (Map::<Seq<char>, Json>::empty()),
{
    serde_json::Map::new()
}

/// `Map::insert`: the value is stored under the key, in place of any value
/// stored there before, which is handed back.
#[verifier::external_body]
pub(crate) fn put(m: &mut serde_json::Map<String, Value>, key: String, v: Value) -> (r: Option<Value>)
    ensures
        object_of(*final(m)) == object_of(*old(m)).insert(key@, json_of(v)),
        match r {
            Some(before) => object_of(*old(m)).contains_key(key@)
                && object_of(*old(m))[key@] == json_of(before),
            None => !object_of(*old(m)).contains_key(key@),
        },
{
    m.insert(key, v)
}

/// `Map::get`: the value stored under the key, `None` where there is none.
#[verifier::external_body]
pub(crate) fn lookup<'a>(m: &'a serde_json::Map<String, Value>, key: &str) -> (r: Option<&'a Value>)
    ensures
        match r {
            Some(v) => object_of(*m).contains_key(key@) && object_of(*m)[key@] == json_of(*v),
            None => !object_of(*m).contains_key(key@),
        },
{
    m.get(key)
}

/// The texts of a list of strings.
pub open spec fn texts(v: Seq<String>) -> Seq<Seq<char>> {
    v.map_values(|s: String| s@)
}

/// `Map::keys`: every key of the map, in ascending order. With the
/// `preserve_order` feature off, as it is here, the map is a `BTreeMap`
/// underneath, whose keys come out sorted, and `String` orders by code point.
#[verifier::external_body]
pub(crate) fn keys_of(m: &serde_json::Map<String, Value>) -> (r: Vec<String>)
    ensures
        ascending(texts(r@)),
        texts(r@).to_set() == object_of(*m).dom(),
{
    m.keys().cloned().collect()
}

} // verus!
