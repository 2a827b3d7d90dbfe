//! The parts of serde_json that the library relies on: its value, map and error
//! types, parsing a text into a value, and reading a value's fields.

use vstd::prelude::*;

verus! {

#[verifier::external_type_specification]
#[verifier::external_body]
pub struct ExJsonValue(serde_json::Value);

#[verifier::external_type_specification]
#[verifier::external_body]
#[verifier::reject_recursive_types(K)]
#[verifier::reject_recursive_types(V)]
pub struct ExJsonMap<K, V>(serde_json::Map<K, V>);

#[verifier::external_type_specification]
#[verifier::external_body]
pub struct ExJsonError(serde_json::Error);

/// Whether serde_json reads a text as a JSON document.
pub uninterp spec fn json_accepts(s: Seq<char>) -> bool;

/// Relies on `serde_json::from_str::<serde_json::Value>`: parses a text into a JSON
/// value, and fails exactly on the texts it does not read as JSON. Whether it
/// fails depends on the text alone.
#[verifier::external_body]
pub(crate) fn parse_json(s: &str) -> (r: Result<serde_json::Value, serde_json::Error>)
    ensures
        r is Ok <==> json_accepts(s@),
{
    serde_json::from_str::<serde_json::Value>(s)
}

/// The string that serde_json finds at a JSON pointer in a text, if the text is
/// JSON and a string stands there.
pub uninterp spec fn json_str_at(text: Seq<char>, pointer: Seq<char>) -> Option<Seq<char>>;

/// Whether serde_json finds an object at a JSON pointer in a text.
pub uninterp spec fn json_object_at(text: Seq<char>, pointer: Seq<char>) -> bool;

/// Relies on `serde_json::from_str::<serde_json::Value>`, `serde_json::Value::pointer`
/// and `serde_json::Value::as_str`: the string at a JSON pointer in a text, `None`
/// when the text is not JSON or no string stands there. It depends on the text and
/// the pointer alone.
#[verifier::external_body]
pub(crate) fn json_str_field(text: &str, pointer: &str) -> (r: Option<String>)
    ensures
        match r {
            Some(s) => json_str_at(text@, pointer@) == Some(s@),
            None => json_str_at(text@, pointer@) is None,
        },
{
    match serde_json::from_str::<serde_json::Value>(text) {
        Ok(v) => v.pointer(pointer).and_then(serde_json::Value::as_str).map(str::to_owned),
        Err(_) => None,
    }
}

/// Relies on `serde_json::from_str::<serde_json::Value>`, `serde_json::Value::pointer`
/// and `serde_json::Value::as_object`: the object at a JSON pointer in a text,
/// `None` when the text is not JSON or no object stands there. Whether there is one
/// depends on the text and the pointer alone.
#[verifier::external_body]
pub(crate) fn json_object_field(
    text: &str,
    pointer: &str,
) -> (r: Option<serde_json::Map<String, serde_json::Value>>)
    ensures
        r is Some <==> json_object_at(text@, pointer@),
{
    match serde_json::from_str::<serde_json::Value>(text) {
        Ok(v) => v.pointer(pointer).and_then(serde_json::Value::as_object).cloned(),
        Err(_) => None,
    }
}

} // verus!
