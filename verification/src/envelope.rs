//! The envelope itself: framing a JSON payload and taking the frame off again.
//!
//! ```text
//! byte 0:      version tag, always 0x01
//! bytes 1..N:  the JSON document
//! ```
//!
//! There is no length prefix, checksum or terminator: the envelope ends where
//! the bytes handed in end.

use vstd::prelude::*;

verus! {

/// The version tag that is written, and the only one that is read.
pub const VERSION_TAG: u8 = 1;

/// Why a byte sequence is not an envelope that can be read.
#[derive(Clone, Copy, Debug, PartialEq, Eq, Structural)]
pub enum DecodeError {
    /// The input is empty: it cannot hold even the version tag.
    MalformedEnvelope,
    /// The first byte is not the supported version. Carries that byte.
    UnsupportedVersion(u8),
    /// The bytes after the tag are not a JSON document of the target type.
    InvalidPayload,
}

impl DecodeError {
    /// The fixed text that stands for each kind of failure.
    pub open spec fn message_text(self) -> Seq<char> {
        match self {
            DecodeError::MalformedEnvelope => "Empty JSONB envelope"@,
            DecodeError::UnsupportedVersion(_) => "Unsupported JSONB encoding version"@,
            DecodeError::InvalidPayload => "Invalid Json"@,
        }
    }

    /// Whether two errors are failures of the same kind, whatever tag an
    /// unsupported version carries.
    pub open spec fn same_kind(self, other: DecodeError) -> bool {
        match (self, other) {
            (DecodeError::MalformedEnvelope, DecodeError::MalformedEnvelope) => true,
            (DecodeError::UnsupportedVersion(_), DecodeError::UnsupportedVersion(_)) => true,
            (DecodeError::InvalidPayload, DecodeError::InvalidPayload) => true,
            _ => false,
        }
    }

    /// The message tells the kinds of failure apart, and nothing else: two
    /// errors have the same message exactly when they are of the same kind.
    pub proof fn lemma_message_tells_kinds_apart(self, other: DecodeError)
        ensures
            self.message_text() == other.message_text() <==> self.same_kind(other),
    {
        reveal_strlit("Empty JSONB envelope");
        reveal_strlit("Unsupported JSONB encoding version");
        reveal_strlit("Invalid Json");
        // The three messages differ in length already.
        assert("Empty JSONB envelope"@.len() == 20);
        assert("Unsupported JSONB encoding version"@.len() == 34);
        assert("Invalid Json"@.len() == 12);
    }

    /// A short, stable message for the error channel of the column layer.
    ///
    /// It depends on the kind of failure alone: neither the offending tag nor
    /// anything the JSON decoder had to say appears in it.
    pub fn message(&self) -> (text: &'static str)
        ensures
            text@ == self.message_text(),
    {
        match self {
            DecodeError::MalformedEnvelope => "Empty JSONB envelope",
            DecodeError::UnsupportedVersion(_) => "Unsupported JSONB encoding version",
            DecodeError::InvalidPayload => "Invalid Json",
        }
    }
}

/// The envelope of a payload: the version tag, then the payload, nothing between.
pub open spec fn envelope_of(payload: Seq<u8>) -> Seq<u8> {
    seq![VERSION_TAG] + payload
}

/// The payload of an envelope, or the reason why it has none.
pub open spec fn payload_of(bytes: Seq<u8>) -> Result<Seq<u8>, DecodeError> {
    if bytes.len() == 0 {
        Err(DecodeError::MalformedEnvelope)
    } else if bytes[0] != VERSION_TAG {
        Err(DecodeError::UnsupportedVersion(bytes[0]))
    } else {
        Ok(bytes.skip(1))
    }
}

/// Taking the frame off undoes putting it on, for every payload.
pub proof fn lemma_unseal_undoes_seal(payload: Seq<u8>)
    ensures
        payload_of(envelope_of(payload)) == Ok::<Seq<u8>, DecodeError>(payload),
{
    assert(envelope_of(payload).skip(1) =~= payload);
}

/// Appends the version tag to `sink`.
pub fn write_tag(sink: &mut Vec<u8>)
    ensures
        final(sink)@ == old(sink)@.push(VERSION_TAG),
{
    sink.push(VERSION_TAG);
}

/// Appends the envelope of `payload` to `sink`.
pub fn seal_into(payload: &[u8], sink: &mut Vec<u8>)
    ensures
        final(sink)@ == old(sink)@ + envelope_of(payload@),
{
    write_tag(sink);
    sink.extend_from_slice(payload);
}

/// The envelope of `payload` as a fresh byte vector.
pub fn seal(payload: &[u8]) -> (envelope: Vec<u8>)
    ensures
        envelope@ == envelope_of(payload@),
{
    let mut envelope: Vec<u8> = Vec::new();
    seal_into(payload, &mut envelope);
    envelope
}

/// Checks the frame of `bytes` and hands out the payload behind the tag.
///
/// An empty input is `MalformedEnvelope`; a first byte other than the version
/// tag is `UnsupportedVersion` with that byte, whatever follows it. The payload
/// itself is not looked at.
pub fn unseal(bytes: &[u8]) -> (r: Result<&[u8], DecodeError>)
    ensures
        match r {
            Ok(payload) => payload_of(bytes@) == Ok::<Seq<u8>, DecodeError>(payload@),
            Err(e) => payload_of(bytes@) == Err::<Seq<u8>, DecodeError>(e),
        },
{
    if bytes.len() == 0 {
        return Err(DecodeError::MalformedEnvelope);
    }
    let tag: u8 = bytes[0];
    if tag != VERSION_TAG {
        return Err(DecodeError::UnsupportedVersion(tag));
    }
    let payload = vstd::slice::slice_subrange(bytes, 1, bytes.len());
    Ok(payload)
}

} // verus!
