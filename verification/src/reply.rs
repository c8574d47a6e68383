use vstd::prelude::*;
use crate::error::DraftError;
use crate::json::{JsonValue, spec_completion_text, spec_transcript_text};
use crate::text::owned;

verus! {

#[verifier::external_type_specification]
#[verifier::external_body]
pub struct ExJsonDocument(serde_json::Value);

/// What `serde_json::from_str::<serde_json::Value>` makes of a text: the document it
/// denotes, member for member, or else the message (`Display`) of the error it reports.
pub uninterp spec fn json_document(text: Seq<char>) -> Result<JsonValue, Seq<char>>;

/// Carries a `serde_json::Value` over into `JsonValue`, one variant at a time: a number
/// by its decimal text, the members of an object in the order of its map.
#[verifier::external_body]
fn json_from_serde(value: serde_json::Value) -> JsonValue {
    match value {
        serde_json::Value::Null => JsonValue::Null,
        serde_json::Value::Bool(b) => JsonValue::Bool(b),
        serde_json::Value::Number(n) => JsonValue::Number(n.to_string()),
        serde_json::Value::String(s) => JsonValue::Str(s),
        serde_json::Value::Array(items) => JsonValue::Array(items.into_iter().map(json_from_serde).collect()),
        serde_json::Value::Object(members) => JsonValue::Object(
            members.into_iter().map(|(key, member)| (key, json_from_serde(member))).collect(),
        ),
    }
}

/// Calls `serde_json::from_str::<serde_json::Value>`, and on failure `to_string` on the
/// error. The contract claims only that both results are what `json_document` names;
/// the grammar and the wording of the errors are not spelled out.
#[verifier::external_body]
fn parse_json_document(text: &str) -> (res: Result<JsonValue, String>)
    ensures
        match json_document(text@) {
            Ok(document) => res == Ok::<JsonValue, String>(document),
            Err(message) => res matches Err(e) && e@ == message,
        },
{
    match serde_json::from_str::<serde_json::Value>(text) {
        Ok(value) => Ok(json_from_serde(value)),
        Err(e) => Err(e.to_string()),
    }
}

/// What a decoded answer means to the library: the document, or the decoder's
/// complaint as an upstream error.
pub fn decoded_answer(parsed: Result<JsonValue, String>) -> (res: Result<JsonValue, DraftError>)
    ensures
        match parsed {
            Ok(document) => res == Ok::<JsonValue, DraftError>(document),
            Err(message) => res == Err::<JsonValue, DraftError>(DraftError::Upstream(message)),
        },
{
    match parsed {
        Ok(document) => Ok(document),
        Err(message) => Err(DraftError::Upstream(message)),
    }
}

/// An answer of the service, read as text, decoded as a JSON document.
pub fn decode_answer(text: &str) -> (res: Result<JsonValue, DraftError>)
    ensures
        match json_document(text@) {
            Ok(document) => res == Ok::<JsonValue, DraftError>(document),
            Err(message) => res matches Err(DraftError::Upstream(e)) && e@ == message,
        },
{
    decoded_answer(parse_json_document(text))
}

/// What `serde_json::from_str::<Vec<String>>` makes of a text: the strings of a JSON
/// array of strings, in order, or else the message (`Display`) of the error it reports.
pub uninterp spec fn json_string_array(text: Seq<char>) -> Result<Seq<Seq<char>>, Seq<char>>;

/// The views of a list of strings.
pub open spec fn string_views(v: Seq<String>) -> Seq<Seq<char>> {
    v.map_values(|s: String| s@)
}

/// Calls `serde_json::from_str::<Vec<String>>`, and on failure `to_string` on the
/// error. The contract claims only that both results are what `json_string_array`
/// names; the grammar and the wording of the errors are not spelled out.
#[verifier::external_body]
fn parse_string_array(text: &str) -> (res: Result<Vec<String>, String>)
    ensures
        match json_string_array(text@) {
            Ok(parts) => res matches Ok(v) && string_views(v@) == parts,
            Err(message) => res matches Err(e) && e@ == message,
        },
{
    match serde_json::from_str::<Vec<String>>(text) {
        Ok(v) => Ok(v),
        Err(e) => Err(e.to_string()),
    }
}

/// The text at `choices[0].message.content` of a chat completion, when it is a string.
pub fn completion_text(reply: &JsonValue) -> (res: Option<String>)
    ensures
        match res {
            Some(t) => spec_completion_text(*reply) == Some(t@),
            None => spec_completion_text(*reply) is None,
        },
{
    let choices = reply.member(&owned("choices"))?;
    let first = choices.element(0)?;
    let message = first.member(&owned("message"))?;
    let content = message.member(&owned("content"))?;
    content.text()
}

/// The text at `text` of a transcription, when it is a string.
pub fn transcript_text(reply: &JsonValue) -> (res: Option<String>)
    ensures
        match res {
            Some(t) => spec_transcript_text(*reply) == Some(t@),
            None => spec_transcript_text(*reply) is None,
        },
{
    let text = reply.member(&owned("text"))?;
    text.text()
}

/// What a decoded list of letter parts means: the list, unless it is empty (no valid
/// answer); a decoding failure gives the decoder's complaint as an upstream error.
pub fn letter_values_from(parsed: Result<Vec<String>, String>) -> (res: Result<
    Vec<String>,
    DraftError,
>)
    ensures
        match parsed {
            Ok(parts) => if parts.len() == 0 {
                res == Err::<Vec<String>, DraftError>(DraftError::NoValidResponse)
            } else {
                res == Ok::<Vec<String>, DraftError>(parts)
            },
            Err(message) => res == Err::<Vec<String>, DraftError>(DraftError::Upstream(message)),
        },
{
    match parsed {
        Ok(v) => if v.len() == 0 {
            Err(DraftError::NoValidResponse)
        } else {
            Ok(v)
        },
        Err(message) => Err(DraftError::Upstream(message)),
    }
}

/// The letter parts that a completion lists as a JSON array of strings.
///
/// A text that is no such array gives the decoder's complaint as an upstream error;
/// an empty array is no valid answer.
pub fn letter_values(content: &str) -> (res: Result<Vec<String>, DraftError>)
    ensures
        match json_string_array(content@) {
            Ok(parts) => if parts.len() == 0 {
                res == Err::<Vec<String>, DraftError>(DraftError::NoValidResponse)
            } else {
                res matches Ok(v) && string_views(v@) == parts
            },
            Err(message) => res matches Err(DraftError::Upstream(e)) && e@ == message,
        },
{
    letter_values_from(parse_string_array(content))
}

} // verus!
