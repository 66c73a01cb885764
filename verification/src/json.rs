//! What the library reads out of raw JSON documents.

use vstd::prelude::*;

verus! {

/// The text of the error with which a byte string is refused as a JSON document, if it is refused.
pub uninterp spec fn json_fault_text(document: Seq<u8>) -> Option<Seq<char>>;

/// `serde_json::from_slice::<serde_json::Value>`: whether it fails, and with which text, depends on
/// the bytes alone.
#[verifier::external_body]
pub(crate) fn json_fault(document: &[u8]) -> (fault: Option<String>)
    ensures
        match fault {
            Some(text) => json_fault_text(document@) == Some(text@),
            None => json_fault_text(document@) is None,
        },
{
    match serde_json::from_slice::<serde_json::Value>(document) {
        Ok(_) => None,
        Err(error) => Some(error.to_string()),
    }
}

/// Whether a byte string is one well-formed JSON document.
pub open spec fn json_well_formed(document: Seq<u8>) -> bool {
    json_fault_text(document) is None
}

/// Whether a JSON document is an object with a field of this name.
pub uninterp spec fn json_has_field(document: Seq<u8>, field: Seq<char>) -> bool;

/// `serde_json::Value::get` on the parsed document: whether it finds a field depends on the bytes
/// and the name alone; a malformed document has none.
#[verifier::external_body]
pub(crate) fn has_field(document: &[u8], field: &str) -> (answer: bool)
    ensures
        answer == json_has_field(document@, field@),
        !json_well_formed(document@) ==> !answer,
{
    match serde_json::from_slice::<serde_json::Value>(document) {
        Ok(value) => value.get(field).is_some(),
        Err(_) => false,
    }
}

/// The unsigned integer that a field of a JSON document holds, if it holds one.
pub uninterp spec fn json_unsigned_field(document: Seq<u8>, field: Seq<char>) -> Option<u64>;

/// `serde_json::Value::as_u64` of a field of the parsed document: the result depends on the bytes
/// and the name alone; a document without that field has none.
#[verifier::external_body]
pub(crate) fn unsigned_field(document: &[u8], field: &str) -> (value: Option<u64>)
    ensures
        value == json_unsigned_field(document@, field@),
        !json_has_field(document@, field@) ==> value is None,
{
    serde_json::from_slice::<serde_json::Value>(document).ok()?.get(field)?.as_u64()
}

/// The text that a field of a JSON document holds, if it holds one.
pub uninterp spec fn json_text_field(document: Seq<u8>, field: Seq<char>) -> Option<Seq<char>>;

/// `serde_json::Value::as_str` of a field of the parsed document: the result depends on the bytes
/// and the name alone; a document without that field has none.
#[verifier::external_body]
pub(crate) fn text_field(document: &[u8], field: &str) -> (value: Option<String>)
    ensures
        value matches Some(text) ==> json_text_field(document@, field@) == Some(text@),
        value is None ==> json_text_field(document@, field@) is None,
        !json_has_field(document@, field@) ==> value is None,
{
    let value = serde_json::from_slice::<serde_json::Value>(document).ok()?;
    Some(value.get(field)?.as_str()?.to_owned())
}

/// A document is well formed or has a fault that can be told, and never both.
pub proof fn malformed_documents_have_a_fault(document: Seq<u8>)
    ensures
        json_fault_text(document) is Some <==> !json_well_formed(document),
{
}

} // verus!
