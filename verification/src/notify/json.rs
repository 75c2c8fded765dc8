//! JSON objects of `serde_json`, built one member at a time.

use vstd::prelude::*;

verus! {

/// A JSON value of `serde_json`.
#[verifier::external_type_specification]
#[verifier::external_body]
pub struct ExValue(serde_json::Value);

/// A JSON object of `serde_json`.
#[verifier::external_type_specification]
#[verifier::external_body]
#[verifier::reject_recursive_types(K)]
#[verifier::reject_recursive_types(V)]
pub struct ExMap<K, V>(serde_json::Map<K, V>);

/// A JSON value as mathematics. An object is the map from the names of its
/// members to their values.
pub enum Json {
    Null,
    Bool(bool),
    Number(i64),
    Text(Seq<char>),
    Object(Map<Seq<char>, Json>),
}

/// What a `serde_json::Value` holds.
pub uninterp spec fn json_value(value: serde_json::Value) -> Json;

/// The members of a `serde_json::Map`: for each name the value under it.
/// The map keeps its members by name and in no other order, so two maps
/// with the same members are the same to whoever reads them.
pub uninterp spec fn json_members(object: serde_json::Map<String, serde_json::Value>) -> Map<
    Seq<char>,
    Json,
>;

/// `Value::Null` of `serde_json`: the JSON `null`.
#[verifier::external_body]
pub(crate) fn json_null() -> (value: serde_json::Value)
    ensures
        json_value(value) == Json::Null,
{
    serde_json::Value::Null
}

/// `Value::from(bool)` of `serde_json`: the JSON `true` or `false`.
#[verifier::external_body]
pub(crate) fn json_bool(flag: bool) -> (value: serde_json::Value)
    ensures
        json_value(value) == Json::Bool(flag),
{
    serde_json::Value::from(flag)
}

/// `Value::from(i64)` of `serde_json`: the JSON number with that value.
#[verifier::external_body]
pub(crate) fn json_number(number: i64) -> (value: serde_json::Value)
    ensures
        json_value(value) == Json::Number(number),
{
    serde_json::Value::from(number)
}

/// `Value::from(&str)` of `serde_json`: the JSON string with that text.
#[verifier::external_body]
pub(crate) fn json_text(text: &str) -> (value: serde_json::Value)
    ensures
        json_value(value) == Json::Text(text@),
{
    serde_json::Value::from(text)
}

/// `Value::from(Map)` of `serde_json`: the JSON object with the members of
/// the map.
#[verifier::external_body]
pub(crate) fn json_object(object: serde_json::Map<String, serde_json::Value>) -> (value:
    serde_json::Value)
    ensures
        json_value(value) == Json::Object(json_members(object)),
{
    serde_json::Value::from(object)
}

/// `Map::new` of `serde_json`: an object without members.
#[verifier::external_body]
pub(crate) fn json_empty() -> (object: serde_json::Map<String, serde_json::Value>)
    ensures
        json_members(object) =~= Map::empty(),
{
    serde_json::Map::new()
}

/// `Map::insert` of `serde_json`: puts the value under the key, in place of
/// what was there, and leaves the other members as they are.
#[verifier::external_body]
pub(crate) fn json_put(
    object: &mut serde_json::Map<String, serde_json::Value>,
    key: &str,
    value: serde_json::Value,
)
    ensures
        json_members(*final(object)) == json_members(*old(object)).insert(key@, json_value(value)),
{
    object.insert(key.to_owned(), value);
}

} // verus!
