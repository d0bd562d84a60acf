//! The trusted boundary to the structured-value serializer.
//!
//! The engine never interprets the caller's input value or a guest payload:
//! it only turns values into bytes on the way in and bytes back into values
//! on the way out, through the two wrappers here.

use vstd::prelude::*;

verus! {

#[verifier::external_type_specification]
#[verifier::external_body]
pub struct ExValue(serde_json::Value);

/// Relies on serde_json::to_vec: the plain structured-text serialization of
/// the value, with no framing and no length prefix. Serializing a
/// `serde_json::Value` cannot fail: its map keys are always strings.
#[verifier::external_body]
pub(crate) fn json_to_bytes(v: &serde_json::Value) -> Vec<u8> {
    serde_json::to_vec(v).expect("serializing a JSON value does not fail")
}

/// Relies on serde_json::from_slice: `Some` exactly when the bytes are one
/// well-formed JSON value, which is then returned.
#[verifier::external_body]
pub(crate) fn bytes_to_json(b: &Vec<u8>) -> (r: Option<serde_json::Value>) {
    serde_json::from_slice(b.as_slice()).ok()
}

} // verus!
