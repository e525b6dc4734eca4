//! The JSON values that tool calls carry, as provided by `serde_json`.
use vstd::prelude::*;

verus! {

/// A JSON value of `serde_json`, carried through unopened.
#[verifier::external_type_specification]
#[verifier::external_body]
pub struct ExJsonValue(serde_json::Value);

/// The error that `serde_json` reports for text it cannot parse.
#[verifier::external_type_specification]
#[verifier::external_body]
pub struct ExJsonError(serde_json::Error);

/// Whether `text` is one complete JSON document (as `serde_json` reads it).
pub uninterp spec fn is_json_document(text: Seq<char>) -> bool;

/// The value that `serde_json` reads from the JSON document `text`.
pub uninterp spec fn json_value_of(text: Seq<char>) -> serde_json::Value;

/// Calls `serde_json::from_str::<serde_json::Value>`; the result is `Ok`
/// exactly when the text is a JSON document, and then it is the value read
/// from that text (a value that depends on the text alone).
#[verifier::external_body]
pub(crate) fn parse_json(text: &str) -> (res: Result<serde_json::Value, serde_json::Error>)
    ensures
        res is Ok <==> is_json_document(text@),
        res matches Ok(v) ==> v == json_value_of(text@),
{
    serde_json::from_str::<serde_json::Value>(text)
}

} // verus!
