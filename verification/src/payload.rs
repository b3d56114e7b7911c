//! Structured payloads and their JSON text.

use vstd::prelude::*;

verus! {

/// `serde_json::Value`, a tree of objects, arrays and scalars. It is carried
/// as it is; only its JSON text is ever looked at.
#[verifier::external_type_specification]
#[verifier::external_body]
pub struct ExValue(serde_json::Value);

/// `serde_json::Error`, what a failed conversion hands back. Only its
/// message is ever looked at.
#[verifier::external_type_specification]
#[verifier::external_body]
pub struct ExJsonError(serde_json::Error);

/// The compact JSON text of a payload, or `None` where the payload cannot be
/// written as JSON.
pub uninterp spec fn json_text(value: serde_json::Value) -> Option<Seq<char>>;

/// Writes a payload as compact JSON text.
///
/// Calls `serde_json::to_string`, whose result is a function of the value
/// alone: the contract gives that result the name `json_text`, and says
/// nothing more of it.
#[verifier::external_body]
pub(crate) fn payload_text(value: &serde_json::Value) -> (text: Option<String>)
    ensures
        match text {
            Some(s) => json_text(*value) == Some(s@),
            None => json_text(*value) is None,
        },
{
    serde_json::to_string(value).ok()
}

/// The JSON text of a payload that is the one string `text`, or `None`
/// where it cannot be written.
pub uninterp spec fn json_string(text: Seq<char>) -> Option<Seq<char>>;

/// Whether JSON writes a text between its quotes as it stands: no
/// character of it is a quote, a backslash or a control character.
pub open spec fn needs_no_escape(text: Seq<char>) -> bool {
    forall|i: int|
        0 <= i < text.len() ==> (#[trigger] text[i]) != '"' && text[i] != '\\' && text[i] as u32
            >= 0x20
}

/// A text between double quotes.
pub open spec fn quoted(text: Seq<char>) -> Seq<char> {
    "\""@ + text + "\""@
}

/// The payload that is one string.
///
/// Calls `serde_json::Value::from`, which makes a `Value::String` of the
/// text. What `serde_json::to_string` writes for such a value is a function
/// of the text alone, named `json_string`; for a text that needs no escape
/// it is the text between double quotes.
#[verifier::external_body]
pub(crate) fn text_payload(text: &str) -> (value: serde_json::Value)
    ensures
        json_text(value) == json_string(text@),
        needs_no_escape(text@) ==> json_text(value) == Some(quoted(text@)),
{
    serde_json::Value::from(text)
}

/// What a serialization error says of itself.
///
/// Calls the `Display` impl of `serde_json::Error`; nothing is claimed of
/// the text.
#[verifier::external_body]
pub(crate) fn describe(error: &serde_json::Error) -> (message: String) {
    error.to_string()
}

} // verus!
