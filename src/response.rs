//! Decoding a lookup's response body into a generic JSON value.
use vstd::prelude::*;

verus! {

#[verifier::external_type_specification]
#[verifier::external_body]
pub struct ExJsonValue(serde_json::Value);

#[verifier::external_type_specification]
#[verifier::external_body]
pub struct ExJsonError(serde_json::Error);

/// Whether `text` is one complete JSON document, as serde_json reads it.
pub uninterp spec fn is_json_document(text: Seq<char>) -> bool;

/// Relies on `serde_json::from_str` into `serde_json::Value`: it succeeds
/// exactly on the texts that hold one JSON document, and an empty text
/// holds none (end of input while a value is expected).
#[verifier::external_body]
fn parse_json(text: &str) -> (r: Result<serde_json::Value, serde_json::Error>)
    ensures
        r.is_ok() == is_json_document(text@),
        text@.len() == 0 ==> r.is_err(),
{
    serde_json::from_str(text)
}

/// Why a response body could not be decoded.
#[derive(Debug, PartialEq, Eq, Structural)]
pub enum BodyError {
    /// The body is not a JSON document.
    NotJson,
}

/// The body of a lookup's response as a JSON value, returned as it stands;
/// a body that is not a JSON document is an error.
pub fn parse_body(text: &str) -> (r: Result<serde_json::Value, BodyError>)
    ensures
        r.is_ok() <==> is_json_document(text@),
        r.is_err() ==> r == Err::<serde_json::Value, BodyError>(BodyError::NotJson),
        text@.len() == 0 ==> r.is_err(),
{
    match parse_json(text) {
        Ok(v) => Ok(v),
        Err(_) => Err(BodyError::NotJson),
    }
}

} // verus!
