//! The codec bound to `serde_json::Value`: any JSON document, with no schema,
//! can be stored in an envelope as it is.
//!
//! Writing and reading the JSON text is `serde_json`'s work. The library names
//! what it returns and proves nothing of it.

use vstd::prelude::*;
use crate::capability::JsonDecodable;
use crate::capability::JsonEncodable;
use crate::codec::decodes_to;
use crate::codec::encodes_to;
use crate::envelope::DecodeError;
use crate::envelope::envelope_of;
use crate::envelope::payload_of;

verus! {

/// A JSON document held in memory, as `serde_json` models it.
#[verifier::external_type_specification]
#[verifier::external_body]
pub struct ExValue(serde_json::Value);

/// What `serde_json` reports when it cannot write or read JSON text.
#[verifier::external_type_specification]
#[verifier::external_body]
pub struct ExError(serde_json::Error);

/// The compact JSON text that `serde_json` writes for a document, or `None`
/// where it reports an error instead.
pub uninterp spec fn document_text(document: serde_json::Value) -> Option<Seq<u8>>;

/// The document that `serde_json` reads from `text`, or `None` where `text`
/// is not one complete JSON document.
pub uninterp spec fn text_document(text: Seq<u8>) -> Option<serde_json::Value>;

/// `serde_json::to_vec` on a document.
///
/// Not proved: that the bytes returned are the JSON text of the document. The
/// contract only names them, as a function of the document alone.
#[verifier::external_body]
fn document_to_vec(document: &serde_json::Value) -> (r: Result<Vec<u8>, serde_json::Error>)
    ensures
        r is Ok <==> document_text(*document) is Some,
        r matches Ok(text) ==> document_text(*document) == Some(text@),
{
    serde_json::to_vec(document)
}

/// `serde_json::from_slice`, reading a document.
///
/// Not proved: that the document returned is the one that `text` spells. The
/// contract only names it, as a function of the bytes alone.
#[verifier::external_body]
fn document_from_slice(text: &[u8]) -> (r: Result<serde_json::Value, serde_json::Error>)
    ensures
        r is Ok <==> text_document(text@) is Some,
        r matches Ok(document) ==> text_document(text@) == Some(document),
{
    serde_json::from_slice(text)
}

impl JsonEncodable for serde_json::Value {
    type Error = serde_json::Error;

    /// The compact JSON text of the document.
    fn to_json(&self) -> (r: Result<Vec<u8>, serde_json::Error>)
        ensures
            r is Ok <==> document_text(*self) is Some,
            r matches Ok(text) ==> document_text(*self) == Some(text@),
    {
        document_to_vec(self)
    }
}

impl JsonDecodable for serde_json::Value {
    type Error = serde_json::Error;

    /// The document that `text` spells, where it is one complete document.
    fn from_json(text: &[u8]) -> (r: Result<Self, serde_json::Error>)
        ensures
            r is Ok <==> text_document(text@) is Some,
            r matches Ok(document) ==> text_document(text@) == Some(document),
    {
        document_from_slice(text)
    }
}

/// The envelope that stands for a document, or `None` where the document has
/// no JSON text.
pub open spec fn document_envelope(document: serde_json::Value) -> Option<Seq<u8>> {
    match document_text(document) {
        Some(text) => Some(envelope_of(text)),
        None => None,
    }
}

/// What decoding `bytes` as a document comes to.
pub open spec fn envelope_document(bytes: Seq<u8>) -> Result<serde_json::Value, DecodeError> {
    match payload_of(bytes) {
        Err(e) => Err(e),
        Ok(payload) => match text_document(payload) {
            Some(document) => Ok(document),
            None => Err(DecodeError::InvalidPayload),
        },
    }
}

/// A document has one envelope at most: what stands for it is a function of
/// the document.
pub proof fn lemma_document_envelope(document: serde_json::Value, bytes: Seq<u8>)
    requires
        encodes_to(document, bytes),
    ensures
        document_envelope(document) == Some(bytes),
{
}

/// Decoding a document is a function of the bytes.
pub proof fn lemma_envelope_document(
    bytes: Seq<u8>,
    outcome: Result<serde_json::Value, DecodeError>,
)
    requires
        decodes_to(bytes, outcome),
    ensures
        outcome == envelope_document(bytes),
{
}

} // verus!
