//! The boundary to `serde_json`: the types it hands out, names for what its
//! functions return, and one wrapper for each function the library calls.
//!
//! Nothing here is proved. Each contract says of a call only that its result
//! is the named function of its arguments; what the library makes of those
//! results is proved elsewhere.

use serde_json::{Error, Value};
use vstd::prelude::*;

verus! {

/// `serde_json::Value`, a parsed JSON value, opaque to the verifier.
#[verifier::external_type_specification]
#[verifier::external_body]
pub struct ExValue(Value);

/// `serde_json::Error`, why a text is not JSON, opaque to the verifier.
#[verifier::external_type_specification]
#[verifier::external_body]
pub struct ExError(Error);

/// `serde_json::Map`, the members of a JSON object, opaque to the verifier.
#[verifier::external_type_specification]
#[verifier::external_body]
#[verifier::reject_recursive_types(K)]
#[verifier::reject_recursive_types(V)]
pub struct ExMap<K, V>(serde_json::Map<K, V>);

/// The value that `serde_json::from_str` reads from a text, or `None` where
/// it reports an error.
pub uninterp spec fn json_document(text: Seq<char>) -> Option<Value>;

/// The value that indexing a value with a string key yields: the member
/// under that key, or the null value.
pub uninterp spec fn json_member(value: Value, key: Seq<char>) -> Value;

/// The characters that `Value::as_str` yields, or `None` where the value is
/// not a string.
pub uninterp spec fn json_text(value: Value) -> Option<Seq<char>>;

/// The map that `Value::as_object` yields, or `None` where the value is not
/// an object.
pub uninterp spec fn json_object(value: Value) -> Option<serde_json::Map<String, Value>>;

/// The entries of a map, key and value, in the order `Map::iter` walks them.
/// The crate is built to keep the order in which a document lists them.
pub uninterp spec fn json_entries(members: serde_json::Map<String, Value>) -> Seq<(Seq<char>, Value)>;

/// Calls `serde_json::from_str` for a `Value`. The contract claims that the
/// call succeeds exactly where `json_document` names a value, and returns
/// that value.
#[verifier::external_body]
pub(crate) fn parse_document(text: &str) -> (r: Result<Value, Error>)
    ensures
        r is Ok <==> json_document(text@) is Some,
        r matches Ok(value) ==> json_document(text@) == Some(value),
{
    serde_json::from_str(text)
}

/// Indexes a `Value` with a string key, which yields the null value where
/// the value is no object or has no such member. The contract claims that
/// the result is `json_member` of the value and the key.
#[verifier::external_body]
pub(crate) fn member<'a>(value: &'a Value, key: &str) -> (r: &'a Value)
    ensures
        *r == json_member(*value, key@),
{
    &value[key]
}

/// Calls `Value::as_str`. The contract claims that the result is `json_text`
/// of the value.
#[verifier::external_body]
pub(crate) fn text_of<'a>(value: &'a Value) -> (r: Option<&'a str>)
    ensures
        r is Some <==> json_text(*value) is Some,
        r matches Some(s) ==> json_text(*value) == Some(s@),
{
    value.as_str()
}

/// Calls `Value::as_object`. The contract claims that the result is
/// `json_object` of the value.
#[verifier::external_body]
pub(crate) fn object_of<'a>(value: &'a Value) -> (r: Option<&'a serde_json::Map<String, Value>>)
    ensures
        r is Some <==> json_object(*value) is Some,
        r matches Some(members) ==> json_object(*value) == Some(*members),
{
    value.as_object()
}

/// Calls `Map::iter` and collects what it yields, each key copied. The
/// contract claims that the result lists `json_entries` of the map.
#[verifier::external_body]
pub(crate) fn entries_of<'a>(members: &'a serde_json::Map<String, Value>) -> (r: Vec<(String, &'a Value)>)
    ensures
        r@.len() == json_entries(*members).len(),
        forall|i: int|
            0 <= i < r@.len() ==> (#[trigger] r@[i]).0@ == json_entries(*members)[i].0 && *r@[i].1
                == json_entries(*members)[i].1,
{
    members.iter().map(|(key, value)| (key.clone(), value)).collect()
}

} // verus!
