//! The JSON encoder that writes a message for the toolkit.

use vstd::prelude::*;

verus! {

/// `serde_json::Value`: any JSON value. It is carried through unopened.
#[verifier::external_type_specification]
#[verifier::external_body]
pub struct ExJsonValue(serde_json::Value);

/// `serde_json::Error`: why the encoder gave up. It is only put into words.
#[verifier::external_type_specification]
#[verifier::external_body]
pub struct ExJsonError(serde_json::Error);

/// The JSON text that `serde_json::to_string` writes for `value`, or
/// nothing where the encoder gives up. The text depends on the value
/// alone.
pub uninterp spec fn json_text(value: serde_json::Value) -> Option<Seq<char>>;

/// `serde_json::to_string` on a JSON value: the value written out as
/// JSON text, or the encoder's error. The claim is that the outcome is the
/// one that belongs to the value: the same value gives the same text, and
/// fails if it fails once. What the text holds is not claimed; callers
/// check it themselves.
#[verifier::external_body]
fn to_json(message: &serde_json::Value) -> (text: Result<String, serde_json::Error>)
    ensures
        text matches Ok(written) ==> json_text(*message) == Some(written@),
        text is Err ==> json_text(*message) is None,
{
    serde_json::to_string(message)
}

/// Writes `message` as JSON text; a failure is kept as the encoder's own
/// words.
pub(crate) fn encode_message(message: &serde_json::Value) -> (encoded: Result<String, String>)
    ensures
        encoded matches Ok(written) ==> json_text(*message) == Some(written@),
        encoded is Err ==> json_text(*message) is None,
{
    match to_json(message) {
        Ok(text) => Ok(text),
        Err(error) => Err(error.to_string()),
    }
}

} // verus!
