//! The JSON values and errors of `serde_json`, and the calls into it that the
//! REST client makes.

use vstd::prelude::*;

use serde_json::Error as JsonError;

verus! {

/// A JSON value (`serde_json::Value`), carried through the library unread.
#[verifier::external_type_specification]
#[verifier::external_body]
pub struct ExJsonValue(serde_json::Value);

/// A JSON (de)serialization error (`serde_json::Error`).
#[verifier::external_type_specification]
#[verifier::external_body]
pub struct ExJsonError(JsonError);

/// What `serde_json::from_slice::<Value>` returns for the given bytes.
pub uninterp spec fn json_decode(bytes: Seq<u8>) -> Result<serde_json::Value, serde_json::Error>;

/// What `serde_json::to_vec` returns for the given value.
pub uninterp spec fn json_encode(value: serde_json::Value) -> Result<Seq<u8>, serde_json::Error>;

/// What `serde_json::Value::Object` holds when built from the given key and
/// string-value pairs (a later pair replaces an earlier one of the same key).
pub uninterp spec fn json_string_object_value(entries: Seq<(Seq<char>, Seq<char>)>) -> serde_json::Value;

/// The characters of string pairs.
pub open spec fn string_pairs_text(entries: Seq<(String, String)>) -> Seq<(Seq<char>, Seq<char>)> {
    entries.map_values(|e: (String, String)| (e.0@, e.1@))
}

/// Whether `bytes` decode to the JSON value `value`.
pub open spec fn decodes_to(bytes: Seq<u8>, value: serde_json::Value) -> bool {
    json_decode(bytes) == Ok::<serde_json::Value, JsonError>(value)
}

/// The bytes of the JSON text `null`.
pub open spec fn null_text() -> Seq<u8> {
    seq![0x6eu8, 0x75u8, 0x6cu8, 0x6cu8]
}

/// Calls `serde_json::from_slice::<serde_json::Value>`; its contract claims
/// only that the outcome is a function of the bytes, named `json_decode`.
#[verifier::external_body]
pub(crate) fn json_from_slice(bytes: &[u8]) -> (r: Result<serde_json::Value, serde_json::Error>)
    ensures
        r == json_decode(bytes@),
{
    serde_json::from_slice(bytes)
}

/// Builds `serde_json::Value::Null`; its contract claims that this is the
/// value that decoding the text `null` yields, as serde_json documents.
#[verifier::external_body]
pub(crate) fn json_null() -> (null_value: serde_json::Value)
    ensures
        decodes_to(null_text(), null_value),
{
    serde_json::Value::Null
}

/// Builds a JSON object (`serde_json::Value::Object` collected from the
/// pairs, each value a `serde_json::Value::String`); its contract claims only
/// that the object is a function of the pairs, named `json_string_object_value`.
#[verifier::external_body]
pub(crate) fn json_string_object(entries: Vec<(String, String)>) -> (object: serde_json::Value)
    ensures
        object == json_string_object_value(string_pairs_text(entries@)),
{
    serde_json::Value::Object(
        entries.into_iter().map(|(key, value)| (key, serde_json::Value::String(value))).collect(),
    )
}

/// Calls `serde_json::to_vec` on a JSON value; its contract claims only that
/// the outcome is a function of the value, named `json_encode`.
#[verifier::external_body]
pub(crate) fn json_to_vec(value: &serde_json::Value) -> (r: Result<Vec<u8>, serde_json::Error>)
    ensures
        match r {
            Ok(bytes) => json_encode(*value) == Ok::<Seq<u8>, JsonError>(bytes@),
            Err(e) => json_encode(*value) == Err::<Seq<u8>, JsonError>(e),
        },
{
    serde_json::to_vec(value)
}

} // verus!
