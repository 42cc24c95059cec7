//! Encoding a value into an envelope and decoding an envelope into a value.

use vstd::prelude::*;
use crate::capability::JsonDecodable;
use crate::capability::JsonEncodable;
use crate::capability::decoder_gives;
use crate::capability::encoder_gives;
use crate::capability::reads_back;
use crate::envelope::DecodeError;
use crate::envelope::VERSION_TAG;
use crate::envelope::envelope_of;
use crate::envelope::lemma_unseal_undoes_seal;
use crate::envelope::payload_of;
use crate::envelope::unseal;
use crate::envelope::write_tag;

verus! {

/// What an encoder tells the column layer about the value it has written.
#[derive(Clone, Copy, Debug, PartialEq, Eq, Structural)]
pub enum IsNull {
    /// Nothing was written: the column is null.
    Yes,
    /// The value is present.
    No,
}

/// What `encode` returns once the JSON encoder has run: a value that was
/// written is present, never null; a failure is handed on as it is.
pub open spec fn encode_outcome_of<E>(written: Result<Vec<u8>, E>) -> Result<IsNull, E> {
    match written {
        Ok(_) => Ok(IsNull::No),
        Err(e) => Err(e),
    }
}

/// What `decode` returns once the JSON decoder has run on the payload: the
/// value, or `InvalidPayload` whatever the decoder's own error was.
pub open spec fn decode_outcome_of<T, E>(parsed: Result<T, E>) -> Result<T, DecodeError> {
    match parsed {
        Ok(value) => Ok(value),
        Err(_) => Err(DecodeError::InvalidPayload),
    }
}

/// What `encode` appends to the sink once the JSON encoder has run: the
/// envelope of the text, or the tag alone where there is no text.
pub open spec fn encode_output_of<E>(written: Result<Vec<u8>, E>) -> Seq<u8> {
    match written {
        Ok(text) => envelope_of(text@),
        Err(_) => seq![VERSION_TAG],
    }
}

/// Whether `bytes` is an envelope that stands for `value`: the envelope of a
/// JSON text that the type's encoder may give for it.
pub open spec fn encodes_to<T: JsonEncodable>(value: T, bytes: Seq<u8>) -> bool {
    exists|text: Vec<u8>| #[trigger]
        encoder_gives(value, Ok::<Vec<u8>, T::Error>(text)) && bytes == envelope_of(text@)
}

/// Whether `outcome` is what decoding `bytes` as a `T` may come to.
///
/// The frame decides first, and alone: an input without payload gives its
/// error. Otherwise the outcome is that of the type's decoder on the payload,
/// with every decoder error collapsed to `InvalidPayload`.
pub open spec fn decodes_to<T: JsonDecodable>(
    bytes: Seq<u8>,
    outcome: Result<T, DecodeError>,
) -> bool {
    match payload_of(bytes) {
        Err(e) => outcome == Err::<T, DecodeError>(e),
        Ok(payload) => exists|parsed: Result<T, T::Error>| #[trigger]
            decoder_gives::<T>(payload, parsed) && outcome == decode_outcome_of(parsed),
    }
}

/// The result of `encode` for an encoder that returned `written`.
pub fn finish_encode<E>(written: Result<Vec<u8>, E>, sink: &mut Vec<u8>) -> (r: Result<IsNull, E>)
    ensures
        r == encode_outcome_of(written),
        written matches Ok(text) ==> final(sink)@ == old(sink)@ + text@,
        written is Err ==> final(sink)@ == old(sink)@,
{
    match written {
        Ok(text) => {
            sink.extend_from_slice(text.as_slice());
            Ok(IsNull::No)
        },
        Err(e) => Err(e),
    }
}

/// The result of `decode` for a decoder that returned `parsed`.
pub fn finish_decode<T, E>(parsed: Result<T, E>) -> (r: Result<T, DecodeError>)
    ensures
        r == decode_outcome_of(parsed),
{
    match parsed {
        Ok(value) => Ok(value),
        Err(_) => Err(DecodeError::InvalidPayload),
    }
}

/// Writes the envelope of `value` to `sink`: the version tag, then the JSON
/// text of the value, with nothing between them.
///
/// Succeeds exactly when the type's JSON encoder does, and then reports the
/// value as present. The encoder's failure is returned unchanged; the tag has
/// then been written already, and the caller is to throw the output away.
pub fn encode<T: JsonEncodable>(value: &T, sink: &mut Vec<u8>) -> (r: Result<IsNull, T::Error>)
    ensures
        exists|written: Result<Vec<u8>, T::Error>| #[trigger]
            encoder_gives(*value, written) && r == encode_outcome_of(written) && final(sink)@
                == old(sink)@ + encode_output_of(written),
        r is Ok ==> encodes_to(*value, final(sink)@.skip(old(sink)@.len() as int)),
        r matches Ok(null) ==> null == IsNull::No,
        final(sink)@.len() > old(sink)@.len(),
        final(sink)@[old(sink)@.len() as int] == VERSION_TAG,
{
    write_tag(sink);
    let written = value.to_json();
    let ghost witness = written;
    let r = finish_encode(written, sink);
    proof {
        assert(encoder_gives(*value, witness));
        if let Ok(text) = witness {
            assert(sink@.skip(old(sink)@.len() as int) =~= envelope_of(text@));
        }
    }
    r
}

/// Reads a value back from its envelope.
///
/// An empty input is `MalformedEnvelope`. A first byte other than the version
/// tag is `UnsupportedVersion`, whatever follows. Otherwise the bytes after
/// the tag, and only those, go to the type's JSON decoder: its value is
/// returned, and any failure of it is `InvalidPayload`.
pub fn decode<T: JsonDecodable>(bytes: &[u8]) -> (r: Result<T, DecodeError>)
    ensures
        decodes_to(bytes@, r),
        bytes@.len() == 0 ==> r == Err::<T, DecodeError>(DecodeError::MalformedEnvelope),
        bytes@.len() > 0 && bytes@[0] != VERSION_TAG ==> r == Err::<T, DecodeError>(
            DecodeError::UnsupportedVersion(bytes@[0]),
        ),
{
    match unseal(bytes) {
        Err(e) => Err(e),
        Ok(payload) => {
            let parsed = T::from_json(payload);
            let ghost witness = parsed;
            let r = finish_decode(parsed);
            proof {
                assert(decoder_gives::<T>(payload_of(bytes@).unwrap(), witness));
            }
            r
        },
    }
}

/// Decoding undoes encoding: for a type whose decoder reads back what its
/// encoder writes, an envelope that stands for a value decodes to that value
/// and to nothing else.
pub proof fn lemma_decode_undoes_encode<T: JsonEncodable + JsonDecodable>(
    value: T,
    bytes: Seq<u8>,
    outcome: Result<T, DecodeError>,
)
    requires
        reads_back::<T>(),
        encodes_to(value, bytes),
        decodes_to(bytes, outcome),
    ensures
        outcome == Ok::<T, DecodeError>(value),
{
    let text = choose|text: Vec<u8>| #[trigger]
        encoder_gives(value, Ok::<Vec<u8>, <T as JsonEncodable>::Error>(text)) && bytes
            == envelope_of(text@);
    lemma_unseal_undoes_seal(text@);
}

/// Every envelope that stands for a value begins with the version tag.
pub proof fn lemma_envelope_begins_with_tag<T: JsonEncodable>(value: T, bytes: Seq<u8>)
    requires
        encodes_to(value, bytes),
    ensures
        bytes.len() >= 1,
        bytes[0] == VERSION_TAG,
{
}

/// Nothing decodes from the empty input: it is malformed for every type.
pub proof fn lemma_empty_is_malformed<T: JsonDecodable>(outcome: Result<T, DecodeError>)
    requires
        decodes_to(Seq::<u8>::empty(), outcome),
    ensures
        outcome == Err::<T, DecodeError>(DecodeError::MalformedEnvelope),
{
}

/// A tag other than the version tag is rejected with that tag, whatever
/// follows it.
pub proof fn lemma_other_version_is_unsupported<T: JsonDecodable>(
    tag: u8,
    rest: Seq<u8>,
    outcome: Result<T, DecodeError>,
)
    requires
        tag != VERSION_TAG,
        decodes_to(seq![tag] + rest, outcome),
    ensures
        outcome == Err::<T, DecodeError>(DecodeError::UnsupportedVersion(tag)),
{
}

/// A payload that the type's decoder can only refuse is an invalid payload:
/// behind an intact tag, whatever the decoder's reason, the outcome is
/// `InvalidPayload`.
pub proof fn lemma_refused_payload_is_invalid<T: JsonDecodable>(
    payload: Seq<u8>,
    outcome: Result<T, DecodeError>,
)
    requires
        forall|parsed: Result<T, T::Error>| #[trigger]
            decoder_gives::<T>(payload, parsed) ==> parsed is Err,
        decodes_to(envelope_of(payload), outcome),
    ensures
        outcome == Err::<T, DecodeError>(DecodeError::InvalidPayload),
{
    lemma_unseal_undoes_seal(payload);
}

} // verus!
