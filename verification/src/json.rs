//! The JSON values that travel on the wire, as `serde_json` holds them, and
//! the mathematical model by which the contracts of this crate speak of them.
//!
//! `serde_json`'s types are opaque to the verifier. Everything that is known
//! of them is assumed here, once, and stated over [`Json`].

use vstd::prelude::*;
use serde_json::Value;

verus! {

/// The mathematical model of a JSON value.
///
/// A number is modelled by the text that `serde_json` prints for it; this
/// crate never looks inside one.
pub enum Json {
    Null,
    Bool(bool),
    Number(Seq<char>),
    String(Seq<char>),
    Array(Seq<Json>),
    Object(Map<Seq<char>, Json>),
}

/// `serde_json::Value`, a JSON value. The verifier sees nothing inside it:
/// what it holds is spoken of through [`json_view`].
#[verifier::external_type_specification]
#[verifier::external_body]
pub struct ExValue(serde_json::Value);

/// `serde_json::Map`, the members of a JSON object. The verifier sees
/// nothing inside it: what it holds is spoken of through [`object_members`].
#[verifier::external_type_specification]
#[verifier::external_body]
#[verifier::reject_recursive_types(K)]
#[verifier::reject_recursive_types(V)]
pub struct ExObject<K, V>(serde_json::Map<K, V>);

/// A JSON object as `serde_json` holds it.
pub type Object = serde_json::Map<String, Value>;

/// The JSON value that a `serde_json::Value` holds: `Null` for `Null`, the
/// truth value of a `Bool`, the characters of a `String`, the elements of an
/// `Array` in their order, the members of an `Object`, and for a `Number` the
/// text that it prints as.
pub uninterp spec fn json_view(value: Value) -> Json;

/// The members of a JSON object: each key that the map holds, with the value
/// stored under it. How the map orders its members is not part of it.
pub uninterp spec fn object_members(object: Object) -> Map<Seq<char>, Json>;

/// What `serde_json` makes of a text: the value it denotes, or the message of
/// the error that the parser reports for it.
pub uninterp spec fn json_parse(text: Seq<char>) -> Result<Json, Seq<char>>;

/// `serde_json::from_str` on a `Value`: the outcome is a function of the text
/// alone, named [`json_parse`]. An error is handed back as its message.
#[verifier::external_body]
pub(crate) fn parse(text: &str) -> (r: Result<Value, String>)
    ensures
        match r {
            Ok(value) => json_parse(text@) == Ok::<Json, Seq<char>>(json_view(value)),
            Err(message) => json_parse(text@) == Err::<Json, Seq<char>>(message@),
        },
{
    match serde_json::from_str::<serde_json::Value>(text) {
        Ok(value) => Ok(value),
        Err(error) => Err(error.to_string()),
    }
}

/// `Value::as_object`: the map inside an object, `None` for any other value.
#[verifier::external_body]
pub(crate) fn as_object(value: &Value) -> (r: Option<&Object>)
    ensures
        match json_view(*value) {
            Json::Object(members) => r matches Some(object) && object_members(*object) == members,
            _ => r is None,
        },
{
    value.as_object()
}

/// `Map::get`: the value stored under `key`, `None` where the key is absent.
#[verifier::external_body]
pub(crate) fn member<'a>(object: &'a Object, key: &str) -> (r: Option<&'a Value>)
    ensures
        match r {
            Some(value) => object_members(*object).contains_key(key@)
                && object_members(*object)[key@] == json_view(*value),
            None => !object_members(*object).contains_key(key@),
        },
{
    object.get(key)
}

/// `Value::as_str`: the text of a JSON string, `None` for any other value.
#[verifier::external_body]
pub(crate) fn as_str(value: &Value) -> (r: Option<&str>)
    ensures
        match json_view(*value) {
            Json::String(text) => r matches Some(s) && s@ == text,
            _ => r is None,
        },
{
    value.as_str()
}

/// `Value::as_bool`: the truth value of a JSON boolean, `None` for any other
/// value.
#[verifier::external_body]
pub(crate) fn as_bool(value: &Value) -> (r: Option<bool>)
    ensures
        match json_view(*value) {
            Json::Bool(flag) => r == Some(flag),
            _ => r is None,
        },
{
    value.as_bool()
}

/// `Value::is_null`: whether the value is JSON `null`.
#[verifier::external_body]
pub(crate) fn is_null(value: &Value) -> (r: bool)
    ensures
        r == (json_view(*value) is Null),
{
    value.is_null()
}

/// `Map::clone`: a map with the same members.
#[verifier::external_body]
pub(crate) fn clone_object(object: &Object) -> (r: Object)
    ensures
        object_members(r) == object_members(*object),
{
    object.clone()
}

/// `Map::insert`: `key` now holds `value`, whatever it held before; the other
/// members are untouched.
#[verifier::external_body]
pub(crate) fn insert(object: &mut Object, key: &str, value: Value)
    ensures
        object_members(*final(object)) == object_members(*old(object)).insert(key@, json_view(value)),
{
    object.insert(key.to_owned(), value);
}

/// `Map::remove`: `key` holds nothing any more, whether it held a value or
/// not; the other members are untouched.
#[verifier::external_body]
pub(crate) fn remove(object: &mut Object, key: &str)
    ensures
        object_members(*final(object)) == object_members(*old(object)).remove(key@),
{
    object.remove(key);
}

/// `Value::from` on a `String`: the JSON string of that text.
#[verifier::external_body]
pub(crate) fn string_value(text: String) -> (value: Value)
    ensures
        json_view(value) == Json::String(text@),
{
    serde_json::Value::from(text)
}

/// `Value::from` on a `bool`: the JSON boolean of that truth value.
#[verifier::external_body]
pub(crate) fn bool_value(flag: bool) -> (value: Value)
    ensures
        json_view(value) == Json::Bool(flag),
{
    serde_json::Value::from(flag)
}

/// `Value::from` on a `Map`: the JSON object of those members.
#[verifier::external_body]
pub(crate) fn object_value(members: Object) -> (value: Value)
    ensures
        json_view(value) == Json::Object(object_members(members)),
{
    serde_json::Value::from(members)
}

} // verus!
