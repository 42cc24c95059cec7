//! A versioned binary envelope around JSON text, for values that are stored in
//! a JSON-binary column: one tag byte, then the JSON document.

pub mod capability;
pub mod codec;
pub mod document;
pub mod envelope;
pub mod naming;
