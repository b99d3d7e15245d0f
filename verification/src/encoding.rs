//! Trusted wrappers around the `base64` crate's standard engine (standard
//! alphabet, with padding), which encodes and decodes envelopes.

use vstd::prelude::*;

verus! {

#[verifier::external_type_specification]
#[verifier::external_body]
pub struct ExDecodeError(base64::DecodeError);

/// What `base64`'s standard engine decodes a string to: the decoded bytes,
/// or `None` when the string is not valid padded standard base64.
pub uninterp spec fn b64_decode_of(s: Seq<char>) -> Option<Seq<u8>>;

/// What `base64`'s standard engine encodes a byte string to.
pub uninterp spec fn b64_encode_of(b: Seq<u8>) -> Seq<char>;

/// Relies on `base64::engine::general_purpose::STANDARD.decode`: the outcome
/// is a function of the input alone, `Ok` exactly on valid padded standard
/// base64.
#[verifier::external_body]
pub(crate) fn b64_decode(s: &str) -> (r: Result<Vec<u8>, base64::DecodeError>)
    ensures
        r matches Ok(v) ==> b64_decode_of(s@) == Some(v@),
        r is Err ==> b64_decode_of(s@) is None,
{
    base64::Engine::decode(&base64::engine::general_purpose::STANDARD, s)
}

/// Relies on `base64::engine::general_purpose::STANDARD.encode`: the encoding
/// is a function of the input alone, it never fails on inputs whose encoded
/// length fits in memory, and decoding it with the same engine gives the
/// input back.
#[verifier::external_body]
pub(crate) fn b64_encode(b: &[u8]) -> (r: String)
    requires
        b@.len() <= u32::MAX,
    ensures
        r@ == b64_encode_of(b@),
        b64_decode_of(r@) == Some(b@),
{
    base64::Engine::encode(&base64::engine::general_purpose::STANDARD, b)
}

} // verus!
