//! The JSON capability that a value type brings along.
//!
//! The codec neither produces nor reads JSON. It asks the value's type for
//! both, through the two traits below, and frames what it is given. The traits
//! ask nothing of an implementation beyond its signature, so the codec's
//! guarantees are stated over whatever the two methods may return.

use vstd::prelude::*;

verus! {

/// A type whose values can be written as JSON text.
pub trait JsonEncodable {
    /// What the type's JSON encoder reports when it fails.
    type Error;

    /// The JSON text of this value: one complete document.
    fn to_json(&self) -> Result<Vec<u8>, Self::Error>;
}

/// A type whose values can be read from JSON text.
pub trait JsonDecodable: Sized {
    /// What the type's JSON decoder reports when it fails.
    type Error;

    /// Reads a value from the JSON document `text`, all of it.
    fn from_json(text: &[u8]) -> Result<Self, Self::Error>;
}

/// Whether `outcome` is something that the JSON encoder of `T` may return for
/// `value`.
pub open spec fn encoder_gives<T: JsonEncodable>(
    value: T,
    outcome: Result<Vec<u8>, T::Error>,
) -> bool {
    call_ensures(T::to_json, (&value,), outcome)
}

/// Whether `outcome` is something that the JSON decoder of `T` may return when
/// it is handed exactly the bytes `text`.
pub open spec fn decoder_gives<T: JsonDecodable>(
    text: Seq<u8>,
    outcome: Result<T, T::Error>,
) -> bool {
    exists|input: &[u8]| input@ == text && #[trigger] call_ensures(T::from_json, (input,), outcome)
}

/// Whether reading undoes writing for `T`: whatever text the encoder may give
/// for a value, the decoder can only read that very value from it.
pub open spec fn reads_back<T: JsonEncodable + JsonDecodable>() -> bool {
    forall|value: T, text: Vec<u8>, outcome: Result<T, <T as JsonDecodable>::Error>|
        #[trigger] encoder_gives(value, Ok::<Vec<u8>, <T as JsonEncodable>::Error>(text))
            && #[trigger] decoder_gives::<T>(text@, outcome) ==> outcome == Ok::<
            T,
            <T as JsonDecodable>::Error,
        >(value)
}

} // verus!
