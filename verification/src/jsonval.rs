//! Trusted JSON decoding through `serde_json`.
//!
//! A response body is decoded here, once, into the crate's own model of a
//! JSON document (`crate::json::JsonValue`); every parser of the crate reads
//! that model, and their contracts are stated exactly over it.  What the
//! decoder yields on a given text is a function of the text alone, so it is
//! given a name that `json_parse`'s contract fixes for every input.

use vstd::prelude::*;

use crate::json::{JsonValue, JsonView};

verus! {

#[verifier::external_type_specification]
#[verifier::external_body]
pub struct ExValue(serde_json::Value);

/// The model of the document that `text` denotes, or nothing when `text` is
/// not a JSON document.
pub uninterp spec fn json_of(text: Seq<char>) -> Option<JsonView>;

/// Relies on the variant structure of serde_json::Value: each variant moves
/// into the model's matching variant, a number through Number::as_u64, an
/// object into its key-value members.  Called only by `json_parse`, whose
/// contract covers the composition.
#[verifier::external_body]
fn value_to_model(v: &serde_json::Value) -> JsonValue {
    match v {
        serde_json::Value::Null => JsonValue::Null,
        serde_json::Value::Bool(b) => JsonValue::Bool(*b),
        serde_json::Value::Number(n) => JsonValue::Number(n.as_u64()),
        serde_json::Value::String(s) => JsonValue::Text(s.clone()),
        serde_json::Value::Array(a) => JsonValue::List(a.iter().map(value_to_model).collect()),
        serde_json::Value::Object(m) => JsonValue::Object(
            m.iter().map(|(k, x)| (k.clone(), value_to_model(x))).collect(),
        ),
    }
}

/// Relies on serde_json::from_str::<Value>: parses one JSON document — the
/// model named `json_of` — or reports the decoder's message.
#[verifier::external_body]
pub fn json_parse(text: &str) -> (r: Result<JsonValue, String>)
    ensures
        r matches Ok(v) ==> json_of(text@) == Some(v@),
        r is Err ==> json_of(text@) is None,
{
    match serde_json::from_str::<serde_json::Value>(text) {
        Ok(v) => Ok(value_to_model(&v)),
        Err(e) => Err(e.to_string()),
    }
}

} // verus!
