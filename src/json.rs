//! Decoding of single JSON texts through `serde_json`.

use vstd::prelude::*;

use serde::de::DeserializeOwned;

verus! {

/// The error `serde_json` reports for a line that does not decode into the target type.
#[verifier::external_type_specification]
#[verifier::external_body]
pub struct ExJsonError(serde_json::Error);

/// Relies on `serde_json::from_slice`: decodes one complete JSON text into a value of type `T`,
/// or reports why the bytes are not such a text.
#[verifier::external_body]
pub(crate) fn decode_json<T: DeserializeOwned>(bytes: &[u8]) -> serde_json::Result<T> {
    serde_json::from_slice(bytes)
}

} // verus!
