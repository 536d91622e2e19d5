//! Reading JSON text into a document, and reading parts of a document,
//! through `serde_json`.

use vstd::prelude::*;

verus! {

#[verifier::external_type_specification]
#[verifier::external_body]
pub struct ExJsonValue(serde_json::Value);

/// Whether `serde_json` reads the text `s` as a JSON document: one JSON
/// value, with nothing but white space around it.
pub uninterp spec fn json_text_valid(s: Seq<char>) -> bool;

/// The document that `serde_json` reads from the text `s`.
pub uninterp spec fn json_document(s: Seq<char>) -> serde_json::Value;

/// The message of the error that `serde_json` gives for the text `s`, as
/// its `Display` writes it.
pub uninterp spec fn json_error_text(s: Seq<char>) -> Seq<char>;

/// `doc[key]`: the member `key` of an object, or null.
pub uninterp spec fn json_member(doc: serde_json::Value, key: Seq<char>) -> serde_json::Value;

/// `doc[i]`: the element `i` of an array, or null.
pub uninterp spec fn json_element(doc: serde_json::Value, i: nat) -> serde_json::Value;

/// The length of `doc` where it is an array.
pub uninterp spec fn json_array_len(doc: serde_json::Value) -> Option<nat>;

/// Whether `doc` is a number.
pub uninterp spec fn json_is_number(doc: serde_json::Value) -> bool;

/// The text of `doc` where it is a string.
pub uninterp spec fn json_as_str(doc: serde_json::Value) -> Option<Seq<char>>;

/// `serde_json::from_str::<serde_json::Value>`, with an error turned into
/// its message. It is a function of the text alone; the contract claims
/// that it succeeds exactly on the texts that `json_text_valid` names, that
/// the document it returns is the one `json_document` names for the text,
/// and that the message is the one `json_error_text` names for it.
#[verifier::external_body]
fn value_from_str(text: &str) -> (r: Result<serde_json::Value, String>)
    ensures
        r is Ok <==> json_text_valid(text@),
        r matches Ok(v) ==> v == json_document(text@),
        r matches Err(m) ==> m@ == json_error_text(text@),
{
    serde_json::from_str::<serde_json::Value>(text).map_err(|e| e.to_string())
}

/// `<serde_json::Value as Index<&str>>::index`: the member `key`, or null.
/// The contract claims the result is what `json_member` names.
#[verifier::external_body]
pub(crate) fn member<'a>(doc: &'a serde_json::Value, key: &str) -> (r: &'a serde_json::Value)
    ensures
        *r == json_member(*doc, key@),
{
    &doc[key]
}

/// `<serde_json::Value as Index<usize>>::index`: the element `i`, or null.
/// The contract claims the result is what `json_element` names.
#[verifier::external_body]
pub(crate) fn element<'a>(doc: &'a serde_json::Value, i: usize) -> (r: &'a serde_json::Value)
    ensures
        *r == json_element(*doc, i as nat),
{
    &doc[i]
}

/// `serde_json::Value::as_array`, keeping the array's length. The contract
/// claims the result is what `json_array_len` names.
#[verifier::external_body]
pub(crate) fn array_len(doc: &serde_json::Value) -> (r: Option<usize>)
    ensures
        match r {
            Some(n) => json_array_len(*doc) == Some(n as nat),
            None => json_array_len(*doc) is None,
        },
{
    doc.as_array().map(|a| a.len())
}

/// `serde_json::Value::is_number`. The contract claims the result is what
/// `json_is_number` names.
#[verifier::external_body]
pub(crate) fn is_number(doc: &serde_json::Value) -> (r: bool)
    ensures
        r == json_is_number(*doc),
{
    doc.is_number()
}

/// `serde_json::Value::as_str`, as an owned string. The contract claims
/// the result is what `json_as_str` names.
#[verifier::external_body]
pub(crate) fn as_text(doc: &serde_json::Value) -> (r: Option<String>)
    ensures
        match r {
            Some(s) => json_as_str(*doc) == Some(s@),
            None => json_as_str(*doc) is None,
        },
{
    doc.as_str().map(|s| s.to_string())
}

/// Why a text could not be read as JSON, with `serde_json`'s message.
#[derive(Clone, Debug, PartialEq, Eq)]
pub enum JsonError {
    /// The text is not a JSON document.
    Malformed(String),
}

/// Reads `text` as a JSON document.
pub fn read_json(text: &str) -> (r: Result<serde_json::Value, JsonError>)
    ensures
        r is Ok <==> json_text_valid(text@),
        r matches Ok(v) ==> v == json_document(text@),
        r matches Err(JsonError::Malformed(m)) ==> m@ == json_error_text(text@),
{
    match value_from_str(text) {
        Ok(v) => Ok(v),
        Err(m) => Err(JsonError::Malformed(m)),
    }
}

} // verus!
