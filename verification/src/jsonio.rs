//! Trusted wrapper around `serde_json`, which parses the authenticated
//! plaintext of an envelope into a structured value.
//!
//! `serde_json::Value` is opaque to the verifier: the contracts can say on
//! which byte strings parsing succeeds, but not what value comes out.

use vstd::prelude::*;

verus! {

#[verifier::external_type_specification]
#[verifier::external_body]
pub struct ExValue(serde_json::Value);

#[verifier::external_type_specification]
#[verifier::external_body]
pub struct ExJsonError(serde_json::Error);

/// Whether a byte string parses as a JSON document, a function of the bytes
/// alone.
pub uninterp spec fn json_parses(bytes: Seq<u8>) -> bool;

/// Relies on `serde_json::from_slice`: the outcome is a function of the input
/// bytes alone, `Ok` exactly when they form a valid JSON document.
#[verifier::external_body]
pub(crate) fn parse_json(bytes: &[u8]) -> (r: Result<serde_json::Value, serde_json::Error>)
    ensures
        r is Ok <==> json_parses(bytes@),
{
    serde_json::from_slice(bytes)
}

} // verus!
