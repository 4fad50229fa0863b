//! Event properties: a JSON object keyed by property name.

use vstd::prelude::*;

verus! {

#[verifier::external_type_specification]
#[verifier::external_body]
#[verifier::reject_recursive_types(K)]
#[verifier::reject_recursive_types(V)]
pub struct ExJsonMap<K, V>(serde_json::Map<K, V>);

#[verifier::external_type_specification]
#[verifier::external_body]
pub struct ExJsonValue(serde_json::Value);

/// Event property map shared by all telemetry modules.
pub type Metadata = serde_json::Map<String, serde_json::Value>;

/// What a property map holds: each key maps to `(true, text)` when its value
/// is the JSON string `text`, and to `(false, json)` when its value is any
/// other JSON value, `json` being that value's compact JSON text.
pub uninterp spec fn metadata_entries(m: serde_json::Map<String, serde_json::Value>) -> Map<
    Seq<char>,
    (bool, Seq<char>),
>;

/// Sets property `key` to the JSON string `value` (`serde_json::Map::insert`).
///
/// The map replaces the value of a key it already holds and keeps every other
/// key as it was.
#[verifier::external_body]
pub(crate) fn insert_text(metadata: &mut Metadata, key: &str, value: &str)
    ensures
        metadata_entries(*final(metadata)) == metadata_entries(*old(metadata)).insert(
            key@,
            (true, value@),
        ),
{
    metadata.insert(key.to_string(), serde_json::Value::String(value.to_string()));
}

} // verus!
