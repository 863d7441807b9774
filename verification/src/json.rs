//! JSON values, as `serde_json` holds them, and what the rest of the crate
//! assumes about them.
//!
//! JSON text is read and written by `serde_json`. Its `Value`, `Map` and
//! `Number` are opaque to the verifier; [`JsonValue`] is the mathematical tree
//! that a `Value` stands for, and every function in this module that carries a
//! contract without a proof says, in terms of that tree, what one function of
//! `serde_json` does. Nothing else in the crate is assumed.

use vstd::prelude::*;

verus! {

/// `serde_json::Value`, a JSON value of any kind.
#[verifier::external_type_specification]
#[verifier::external_body]
pub struct ExValue(serde_json::Value);

/// `serde_json::Map`, the members of a JSON object.
#[verifier::external_type_specification]
#[verifier::external_body]
#[verifier::reject_recursive_types(K)]
#[verifier::reject_recursive_types(V)]
pub struct ExMap<K, V>(serde_json::Map<K, V>);

/// `serde_json::Number`, a JSON number.
#[verifier::external_type_specification]
#[verifier::external_body]
pub struct ExNumber(serde_json::Number);

/// `serde_json::Error`, the reason a text is not JSON.
#[verifier::external_type_specification]
#[verifier::external_body]
pub struct ExError(serde_json::Error);

/// A JSON value as a mathematical tree. An object is a map from member names
/// to values: `serde_json` keeps one value for each name.
pub enum JsonValue {
    Null,
    Bool(bool),
    Number(serde_json::Number),
    String(Seq<char>),
    Array(Seq<JsonValue>),
    Object(Map<Seq<char>, JsonValue>),
}

/// The tree that a `serde_json::Value` holds.
pub uninterp spec fn json_of(v: serde_json::Value) -> JsonValue;

/// The members that a `serde_json::Map` holds.
pub uninterp spec fn members_of(m: serde_json::Map<String, serde_json::Value>) -> Map<
    Seq<char>,
    JsonValue,
>;

/// What `serde_json::Value::as_u64` returns for a value that holds the given
/// tree.
pub uninterp spec fn json_u64(j: JsonValue) -> Option<u64>;

/// The number that `serde_json::Number::from` makes of an unsigned integer.
pub uninterp spec fn number_of_u64(x: u64) -> serde_json::Number;

/// The message that a `serde_json::Error` displays.
pub uninterp spec fn error_text(e: serde_json::Error) -> Seq<char>;

/// What `serde_json::from_str` makes of a text: the tree it denotes, or the
/// message of the error.
pub uninterp spec fn json_parse(text: Seq<char>) -> Result<JsonValue, Seq<char>>;

/// What `serde_json::from_slice` makes of a sequence of bytes: the tree it
/// denotes, or the message of the error.
pub uninterp spec fn json_parse_bytes(bytes: Seq<u8>) -> Result<JsonValue, Seq<char>>;

/// The compact text that `serde_json::to_string` writes for a tree, where it
/// writes one.
pub uninterp spec fn json_text(j: JsonValue) -> Option<Seq<char>>;

/// The indented text that `serde_json::to_string_pretty` writes for a tree,
/// where it writes one.
pub uninterp spec fn json_pretty(j: JsonValue) -> Option<Seq<char>>;

/// The trees of a sequence of values, in order.
pub open spec fn jsons_of(items: Seq<serde_json::Value>) -> Seq<JsonValue> {
    Seq::new(items.len(), |i: int| json_of(items[i]))
}

/// Calls `serde_json::from_str` for a `Value`. Assumed: the outcome depends on
/// the text alone, and is the one named [`json_parse`].
#[verifier::external_body]
pub(crate) fn parse_text(text: &str) -> (r: Result<serde_json::Value, serde_json::Error>)
    ensures
        match r {
            Ok(v) => json_parse(text@) == Ok::<JsonValue, Seq<char>>(json_of(v)),
            Err(e) => json_parse(text@) == Err::<JsonValue, Seq<char>>(error_text(e)),
        },
{
    serde_json::from_str::<serde_json::Value>(text)
}

/// Calls `serde_json::from_slice` for a `Value`. Assumed: the outcome depends
/// on the bytes alone, and is the one named [`json_parse_bytes`].
#[verifier::external_body]
pub(crate) fn parse_bytes(bytes: &[u8]) -> (r: Result<serde_json::Value, serde_json::Error>)
    ensures
        match r {
            Ok(v) => json_parse_bytes(bytes@) == Ok::<JsonValue, Seq<char>>(json_of(v)),
            Err(e) => json_parse_bytes(bytes@) == Err::<JsonValue, Seq<char>>(error_text(e)),
        },
{
    serde_json::from_slice::<serde_json::Value>(bytes)
}

/// Formats a `serde_json::Error` through its `Display` impl. Assumed: the text
/// is the one named [`error_text`].
#[verifier::external_body]
pub(crate) fn error_message(e: &serde_json::Error) -> (r: String)
    ensures
        r@ == error_text(*e),
{
    e.to_string()
}

/// Calls `serde_json::to_string` on a `Value`. Assumed: the text depends on the
/// tree alone, and is the one named [`json_text`]; `None` where the call fails.
#[verifier::external_body]
pub(crate) fn to_text(v: &serde_json::Value) -> (r: Option<String>)
    ensures
        r.deep_view() == json_text(json_of(*v)),
{
    serde_json::to_string(v).ok()
}

/// Calls `serde_json::to_string_pretty` on a `Value`. Assumed: the text depends
/// on the tree alone, and is the one named [`json_pretty`]; `None` where the
/// call fails.
#[verifier::external_body]
pub(crate) fn to_pretty_text(v: &serde_json::Value) -> (r: Option<String>)
    ensures
        r.deep_view() == json_pretty(json_of(*v)),
{
    serde_json::to_string_pretty(v).ok()
}

/// Calls `Value::is_null`. Assumed: true exactly for `Value::Null`.
#[verifier::external_body]
pub(crate) fn is_null(v: &serde_json::Value) -> (r: bool)
    ensures
        r == (json_of(*v) is Null),
{
    v.is_null()
}

/// Calls `Value::as_bool`. Assumed: the boolean of a `Value::Bool`, `None` for
/// every other kind.
#[verifier::external_body]
pub(crate) fn as_bool(v: &serde_json::Value) -> (r: Option<bool>)
    ensures
        r == match json_of(*v) {
            JsonValue::Bool(b) => Some(b),
            _ => None,
        },
{
    v.as_bool()
}

/// Calls `Value::as_u64`. Assumed: the outcome depends on the tree alone, is
/// the one named [`json_u64`], and is `None` for every kind but a number.
#[verifier::external_body]
pub(crate) fn as_u64(v: &serde_json::Value) -> (r: Option<u64>)
    ensures
        r == json_u64(json_of(*v)),
        !(json_of(*v) is Number) ==> r is None,
{
    v.as_u64()
}

/// Calls `Value::as_str`. Assumed: the characters of a `Value::String`, `None`
/// for every other kind.
#[verifier::external_body]
pub(crate) fn as_str(v: &serde_json::Value) -> (r: Option<&str>)
    ensures
        r.deep_view() == match json_of(*v) {
            JsonValue::String(s) => Some(s),
            _ => None,
        },
{
    v.as_str()
}

/// Calls `Value::as_array`. Assumed: the elements of a `Value::Array`, in
/// order, `None` for every other kind.
#[verifier::external_body]
pub(crate) fn as_array(v: &serde_json::Value) -> (r: Option<&Vec<serde_json::Value>>)
    ensures
        match json_of(*v) {
            JsonValue::Array(items) => r matches Some(a) && jsons_of(a@) == items,
            _ => r is None,
        },
{
    v.as_array()
}

/// Calls `Value::as_object`. Assumed: the members of a `Value::Object`, `None`
/// for every other kind.
#[verifier::external_body]
pub(crate) fn as_object(v: &serde_json::Value) -> (r: Option<
    &serde_json::Map<String, serde_json::Value>,
>)
    ensures
        match json_of(*v) {
            JsonValue::Object(members) => r matches Some(m) && members_of(*m) == members,
            _ => r is None,
        },
{
    v.as_object()
}

/// Calls `Map::get` with a string key. Assumed: the value of the member of
/// that name, `None` where the object has no such member.
#[verifier::external_body]
pub(crate) fn map_get<'a>(m: &'a serde_json::Map<String, serde_json::Value>, key: &str) -> (r:
    Option<&'a serde_json::Value>)
    ensures
        match r {
            Some(v) => members_of(*m).contains_key(key@) && json_of(*v) == members_of(*m)[key@],
            None => !members_of(*m).contains_key(key@),
        },
{
    m.get(key)
}

/// Calls `Map::keys` and copies each name. Assumed: every member's name is
/// listed, and nothing else.
#[verifier::external_body]
pub(crate) fn map_keys(m: &serde_json::Map<String, serde_json::Value>) -> (r: Vec<String>)
    ensures
        forall|k: Seq<char>| #[trigger]
            members_of(*m).contains_key(k) <==> r.deep_view().contains(k),
{
    m.keys().cloned().collect()
}

/// Calls `Map::new`. Assumed: the new map has no member.
#[verifier::external_body]
pub(crate) fn map_new() -> (r: serde_json::Map<String, serde_json::Value>)
    ensures
        members_of(r) =~= Map::empty(),
{
    serde_json::Map::new()
}

/// Calls `Map::insert`. Assumed: afterwards the member of that name has the
/// given value and every other member is as before.
#[verifier::external_body]
pub(crate) fn map_insert(
    m: &mut serde_json::Map<String, serde_json::Value>,
    key: String,
    value: serde_json::Value,
)
    ensures
        members_of(*final(m)) == members_of(*old(m)).insert(key@, json_of(value)),
{
    m.insert(key, value);
}

/// Copies a `Map` through its `Clone` impl. Assumed: the copy has the same
/// members.
#[verifier::external_body]
pub(crate) fn clone_map(m: &serde_json::Map<String, serde_json::Value>) -> (r: serde_json::Map<
    String,
    serde_json::Value,
>)
    ensures
        members_of(r) == members_of(*m),
{
    m.clone()
}

/// Copies a `Value` through its `Clone` impl. Assumed: the copy holds the same
/// tree.
#[verifier::external_body]
pub(crate) fn clone_value(v: &serde_json::Value) -> (r: serde_json::Value)
    ensures
        json_of(r) == json_of(*v),
{
    v.clone()
}

/// Copies a `Number` through its `Clone` impl. Assumed: the copy is the same
/// number.
#[verifier::external_body]
pub(crate) fn clone_number(n: &serde_json::Number) -> (r: serde_json::Number)
    ensures
        r == *n,
{
    n.clone()
}

/// Makes `Value::Null`.
#[verifier::external_body]
pub(crate) fn null_value() -> (r: serde_json::Value)
    ensures
        json_of(r) == JsonValue::Null,
{
    serde_json::Value::Null
}

/// Makes a `Value::Bool`.
#[verifier::external_body]
pub(crate) fn bool_value(b: bool) -> (r: serde_json::Value)
    ensures
        json_of(r) == JsonValue::Bool(b),
{
    serde_json::Value::Bool(b)
}

/// Makes a `Value::String` of the given characters.
#[verifier::external_body]
pub(crate) fn string_value(s: String) -> (r: serde_json::Value)
    ensures
        json_of(r) == JsonValue::String(s@),
{
    serde_json::Value::String(s)
}

/// Makes a `Value::Number` that holds the given number.
#[verifier::external_body]
pub(crate) fn number_value(n: serde_json::Number) -> (r: serde_json::Value)
    ensures
        json_of(r) == JsonValue::Number(n),
{
    serde_json::Value::Number(n)
}

/// Makes a `Value::Number` of an unsigned integer through `Number::from`.
/// Assumed: the number is the one named [`number_of_u64`], and `as_u64` reads
/// the integer back from it.
#[verifier::external_body]
pub(crate) fn u64_value(x: u64) -> (r: serde_json::Value)
    ensures
        json_of(r) == JsonValue::Number(number_of_u64(x)),
        json_u64(json_of(r)) == Some(x),
{
    serde_json::Value::Number(serde_json::Number::from(x))
}

/// Makes a `Value::Array` of the given elements, in order.
#[verifier::external_body]
pub(crate) fn array_value(items: Vec<serde_json::Value>) -> (r: serde_json::Value)
    ensures
        json_of(r) == JsonValue::Array(jsons_of(items@)),
{
    serde_json::Value::Array(items)
}

/// Makes a `Value::Object` of the given members.
#[verifier::external_body]
pub(crate) fn object_value(m: serde_json::Map<String, serde_json::Value>) -> (r: serde_json::Value)
    ensures
        json_of(r) == JsonValue::Object(members_of(m)),
{
    serde_json::Value::Object(m)
}

} // verus!
