//! The JSON values and objects of serde_json, as this library uses them.
//! A JSON value stays opaque here: the library only ever asks of one
//! whether it is a string, an unsigned integer or `null`.
use vstd::prelude::*;
use serde_json::{Map as JsonObject, Value};

verus! {

#[verifier::external_type_specification]
#[verifier::external_body]
pub struct ExValue(serde_json::Value);

#[verifier::external_type_specification]
#[verifier::external_body]
#[verifier::reject_recursive_types(K)]
#[verifier::reject_recursive_types(V)]
pub struct ExJsonObject<K, V>(serde_json::Map<K, V>);

/// What `Value::as_str` returns for a value.
pub uninterp spec fn json_str(v: serde_json::Value) -> Option<Seq<char>>;

/// What `Value::as_u64` returns for a value.
pub uninterp spec fn json_u64(v: serde_json::Value) -> Option<u64>;

/// What `Value::is_null` returns for a value.
pub uninterp spec fn json_is_null(v: serde_json::Value) -> bool;

/// The members that a JSON object holds, by name.
pub uninterp spec fn json_members(m: serde_json::Map<String, serde_json::Value>) -> Map<
    Seq<char>,
    serde_json::Value,
>;

/// The members of the JSON object that `serde_json::from_slice` reads from
/// the bytes, or `None` where the bytes are no JSON object.
pub uninterp spec fn parsed_members(b: Seq<u8>) -> Option<Map<Seq<char>, serde_json::Value>>;

/// The bytes that `serde_json::to_vec` writes for an object with these members.
pub uninterp spec fn object_bytes(m: Map<Seq<char>, serde_json::Value>) -> Seq<u8>;

/// The text that `serde_json::to_string` writes for an object with these members.
pub uninterp spec fn object_text(m: Map<Seq<char>, serde_json::Value>) -> Seq<char>;

/// Relies on `Value::String`: the value is that string, and no number or `null`.
#[verifier::external_body]
pub(crate) fn string_value(s: String) -> (r: Value)
    ensures
        json_str(r) == Some(s@),
        json_u64(r) is None,
        !json_is_null(r),
{
    Value::String(s)
}

/// Relies on `Value::from(u16)`: the value is that unsigned number, and no
/// string or `null`.
#[verifier::external_body]
pub(crate) fn number_value(n: u16) -> (r: Value)
    ensures
        json_u64(r) == Some(n as u64),
        json_str(r) is None,
        !json_is_null(r),
{
    Value::from(n)
}

/// Relies on `Value::as_str`.
#[verifier::external_body]
pub(crate) fn value_as_str(v: &Value) -> (r: Option<String>)
    ensures
        r is Some <==> json_str(*v) is Some,
        r matches Some(s) ==> json_str(*v) == Some(s@),
{
    v.as_str().map(String::from)
}

/// Relies on `Value::as_u64`.
#[verifier::external_body]
pub(crate) fn value_as_u64(v: &Value) -> (r: Option<u64>)
    ensures
        r == json_u64(*v),
{
    v.as_u64()
}

/// Relies on `Value::is_null`: true only of `Value::Null`, which is no
/// string and no number.
#[verifier::external_body]
pub(crate) fn value_is_null(v: &Value) -> (r: bool)
    ensures
        r == json_is_null(*v),
        r ==> json_str(*v) is None && json_u64(*v) is None,
{
    v.is_null()
}

/// Relies on `Map::new`: an object without members.
#[verifier::external_body]
pub(crate) fn new_object() -> (r: JsonObject<String, Value>)
    ensures
        json_members(r).dom() == Set::<Seq<char>>::empty(),
{
    JsonObject::new()
}

/// Relies on `Map::insert`: the member is added, or replaces the one of
/// the same name.
#[verifier::external_body]
pub(crate) fn object_insert(m: &mut JsonObject<String, Value>, k: String, v: Value)
    ensures
        json_members(*final(m)) == json_members(*old(m)).insert(k@, v),
{
    m.insert(k, v);
}

/// Relies on `Map::into_iter`: each member comes out once.
#[verifier::external_body]
pub(crate) fn object_entries(m: JsonObject<String, Value>) -> (r: Vec<(String, Value)>)
    ensures
        forall|i: int|
            0 <= i < r@.len() ==> #[trigger] json_members(m).contains_key(r@[i].0@)
                && json_members(m)[r@[i].0@] == r@[i].1,
        forall|i: int, j: int|
            0 <= i < r@.len() && 0 <= j < r@.len() && i != j ==> r@[i].0@ != r@[j].0@,
        forall|k: Seq<char>|
            #[trigger] json_members(m).contains_key(k) ==> exists|i: int|
                0 <= i < r@.len() && r@[i].0@ == k,
{
    m.into_iter().collect()
}

/// Relies on `Map::get`: the member of that name, if there is one.
#[verifier::external_body]
pub(crate) fn object_get<'a>(m: &'a JsonObject<String, Value>, k: &str) -> (r: Option<&'a Value>)
    ensures
        r is Some <==> json_members(*m).contains_key(k@),
        r matches Some(v) ==> json_members(*m)[k@] == *v,
{
    m.get(k)
}

/// Relies on `Map::keys`: each member name comes out once.
#[verifier::external_body]
pub(crate) fn object_keys(m: &JsonObject<String, Value>) -> (r: Vec<String>)
    ensures
        forall|i: int| 0 <= i < r@.len() ==> #[trigger] json_members(*m).contains_key(r@[i]@),
        forall|i: int, j: int|
            0 <= i < r@.len() && 0 <= j < r@.len() && i != j ==> r@[i]@ != r@[j]@,
        forall|k: Seq<char>|
            #[trigger] json_members(*m).contains_key(k) ==> exists|i: int|
                0 <= i < r@.len() && r@[i]@ == k,
{
    m.keys().cloned().collect()
}

/// Relies on `Map::clone`: the copy holds the same members.
pub assume_specification[ <serde_json::Map<String, serde_json::Value> as Clone>::clone ](
    m: &serde_json::Map<String, serde_json::Value>,
) -> (r: serde_json::Map<String, serde_json::Value>)
    ensures
        json_members(r) == json_members(*m),
;

/// Relies on `serde_json::from_slice`, read as an object.
#[verifier::external_body]
pub(crate) fn parse_object(b: &[u8]) -> (r: Option<JsonObject<String, Value>>)
    ensures
        r is Some <==> parsed_members(b@) is Some,
        r matches Some(m) ==> parsed_members(b@) == Some(json_members(m)),
{
    serde_json::from_slice(b).ok()
}

/// Relies on `serde_json::to_vec`, which fails only where a `Serialize` impl
/// fails or a map key is no string: neither happens for an object of string
/// keys and JSON values, and writing into a `Vec` does not fail.
#[verifier::external_body]
pub(crate) fn object_to_vec(m: &JsonObject<String, Value>) -> (r: Option<Vec<u8>>)
    ensures
        r is Some,
        r matches Some(b) ==> b@ == object_bytes(json_members(*m)),
{
    serde_json::to_vec(m).ok()
}

/// Relies on `serde_json::to_string`, which fails only where `to_vec` does:
/// never for an object of string keys and JSON values.
#[verifier::external_body]
pub(crate) fn object_to_string(m: &JsonObject<String, Value>) -> (r: Option<String>)
    ensures
        r is Some,
        r matches Some(s) ==> s@ == object_text(json_members(*m)),
{
    serde_json::to_string(m).ok()
}

} // verus!
