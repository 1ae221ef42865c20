//! JSON values of `serde_json`, seen as the data they hold.

use vstd::prelude::*;

verus! {

/// A JSON value of `serde_json`.
#[verifier::external_type_specification]
#[verifier::external_body]
pub struct ExValue(serde_json::Value);

/// A JSON number of `serde_json`.
#[verifier::external_type_specification]
#[verifier::external_body]
pub struct ExNumber(serde_json::Number);

/// A JSON object of `serde_json`.
#[verifier::external_type_specification]
#[verifier::external_body]
#[verifier::reject_recursive_types(K)]
#[verifier::reject_recursive_types(V)]
pub struct ExObject<K, V>(serde_json::Map<K, V>);

/// The data that a JSON value holds. The order of an object's entries is not
/// part of it.
pub ghost enum Json {
    Null,
    Bool(bool),
    Integer(int),
    Float(serde_json::Number),
    Text(Seq<char>),
    Array(Seq<Json>),
    Object(Map<Seq<char>, Json>),
}

/// The data that a `serde_json::Value` holds.
pub uninterp spec fn json_of(value: serde_json::Value) -> Json;

/// The entries that a `serde_json::Map` holds.
pub uninterp spec fn entries_of(object: serde_json::Map<String, serde_json::Value>) -> Map<
    Seq<char>,
    Json,
>;

/// The data that a list of values holds.
pub open spec fn jsons_of(values: Seq<serde_json::Value>) -> Seq<Json> {
    values.map_values(|v: serde_json::Value| json_of(v))
}

/// The entries of an object, where there is one.
pub open spec fn opt_entries(object: Option<&serde_json::Map<String, serde_json::Value>>) -> Option<
    Map<Seq<char>, Json>,
> {
    match object {
        Some(o) => Some(entries_of(*o)),
        None => None,
    }
}

/// No entries.
pub open spec fn no_entries() -> Map<Seq<char>, Json> {
    Map::empty()
}

/// `serde_json::Map::new` makes an empty object.
#[verifier::external_body]
pub(crate) fn new_object() -> (r: serde_json::Map<String, serde_json::Value>)
    ensures
        entries_of(r) == no_entries(),
{
    serde_json::Map::new()
}

/// `serde_json::Map::get` gives the value that stands under the key, if any.
#[verifier::external_body]
pub(crate) fn object_get<'a>(
    object: &'a serde_json::Map<String, serde_json::Value>,
    key: &str,
) -> (r: Option<&'a serde_json::Value>)
    ensures
        r is Some <==> entries_of(*object).contains_key(key@),
        r matches Some(value) ==> json_of(*value) == entries_of(*object)[key@],
{
    object.get(key)
}

/// `serde_json::Map::get_mut` lends the value that stands under the key, if
/// any: what becomes of it becomes of the entry, and no other entry changes.
#[verifier::external_body]
pub(crate) fn object_get_mut<'a>(
    object: &'a mut serde_json::Map<String, serde_json::Value>,
    key: &str,
) -> (r: Option<&'a mut serde_json::Value>)
    ensures
        r is Some <==> entries_of(*old(object)).contains_key(key@),
        r is None ==> entries_of(*final(object)) == entries_of(*old(object)),
        r matches Some(value) ==> json_of(*value) == entries_of(*old(object))[key@],
        r matches Some(value) ==> entries_of(*final(object)) == entries_of(*old(object)).insert(
            key@,
            json_of(*final(value)),
        ),
{
    object.get_mut(key)
}

/// `serde_json::Map::insert` puts the value under the key, in place of any
/// value that stood there.
#[verifier::external_body]
pub(crate) fn object_insert(
    object: &mut serde_json::Map<String, serde_json::Value>,
    key: &str,
    value: serde_json::Value,
)
    ensures
        entries_of(*final(object)) == entries_of(*old(object)).insert(key@, json_of(value)),
{
    object.insert(key.to_string(), value);
}

/// `serde_json::Map::clear` removes every entry.
#[verifier::external_body]
pub(crate) fn object_clear(object: &mut serde_json::Map<String, serde_json::Value>)
    ensures
        entries_of(*final(object)) == no_entries(),
{
    object.clear()
}

/// `serde_json::Value::as_object_mut` lends the object that the value is, if
/// it is one: what becomes of the object becomes of the value.
#[verifier::external_body]
pub(crate) fn as_object_mut<'a>(value: &'a mut serde_json::Value) -> (r: Option<
    &'a mut serde_json::Map<String, serde_json::Value>,
>)
    ensures
        r is Some <==> json_of(*old(value)) is Object,
        r is None ==> json_of(*final(value)) == json_of(*old(value)),
        r matches Some(object) ==> json_of(*old(value)) == Json::Object(entries_of(*object)),
        r matches Some(object) ==> json_of(*final(value)) == Json::Object(
            entries_of(*final(object)),
        ),
{
    value.as_object_mut()
}

/// `serde_json::Value::as_array` gives the elements of the value, if it is an
/// array.
#[verifier::external_body]
pub(crate) fn as_array<'a>(value: &'a serde_json::Value) -> (r: Option<&'a Vec<serde_json::Value>>)
    ensures
        r is Some <==> json_of(*value) is Array,
        r matches Some(elements) ==> json_of(*value) == Json::Array(jsons_of(elements@)),
{
    value.as_array()
}

/// `serde_json::Value::as_str` gives the text of the value, if it is a string.
#[verifier::external_body]
pub(crate) fn as_text<'a>(value: &'a serde_json::Value) -> (r: Option<&'a str>)
    ensures
        r is Some <==> json_of(*value) is Text,
        r matches Some(text) ==> json_of(*value) == Json::Text(text@),
{
    value.as_str()
}

/// `serde_json::Value::String` is the JSON string with the given text.
#[verifier::external_body]
pub(crate) fn text_value(text: String) -> (r: serde_json::Value)
    ensures
        json_of(r) == Json::Text(text@),
{
    serde_json::Value::String(text)
}

/// `serde_json::Value::from` makes a whole number of a `u64`.
#[verifier::external_body]
pub(crate) fn integer_value(n: u64) -> (r: serde_json::Value)
    ensures
        json_of(r) == Json::Integer(n as int),
{
    serde_json::Value::from(n)
}

/// `serde_json::Value::Object` is the JSON object with the given entries.
#[verifier::external_body]
pub(crate) fn object_value(object: serde_json::Map<String, serde_json::Value>) -> (r:
    serde_json::Value)
    ensures
        json_of(r) == Json::Object(entries_of(object)),
{
    serde_json::Value::Object(object)
}

/// `serde_json::Value::clone` makes a value that holds the same data.
#[verifier::external_body]
pub(crate) fn copy_value(value: &serde_json::Value) -> (r: serde_json::Value)
    ensures
        json_of(r) == json_of(*value),
{
    value.clone()
}

} // verus!
