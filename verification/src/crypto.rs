//! Trusted wrappers around the cryptographic primitives of the `ring` crate:
//! the SHA-256 digest used for key derivation and the AES-256-GCM cipher used
//! to seal and open envelopes.
//!
//! The outputs of these primitives take pages to state, so each is given a
//! name (an uninterpreted spec function of the inputs alone) and the wrappers
//! promise only what `ring`'s sources show: output lengths, determinism, and
//! that opening what was sealed under the same key and nonce recovers the
//! plaintext.

use vstd::prelude::*;

verus! {

/// The SHA-256 digest of a byte string.
pub uninterp spec fn sha256_of(input: Seq<u8>) -> Seq<u8>;

/// The AES-256-GCM ciphertext-with-tag for a key, a nonce and a plaintext,
/// with empty associated data.
pub uninterp spec fn gcm_seal_of(key: Seq<u8>, nonce: Seq<u8>, plaintext: Seq<u8>) -> Seq<u8>;

/// The outcome of AES-256-GCM authenticated decryption for a key, a nonce and
/// sealed bytes (ciphertext followed by its tag), with empty associated data:
/// the plaintext when the tag verifies, `None` otherwise.
pub uninterp spec fn gcm_open_of(key: Seq<u8>, nonce: Seq<u8>, sealed: Seq<u8>) -> Option<Seq<u8>>;

/// Relies on `ring::digest::digest` with `SHA256`: the digest is 32 bytes and
/// a function of the input alone.
#[verifier::external_body]
pub(crate) fn sha256(input: &[u8]) -> (r: Vec<u8>)
    ensures
        r@ == sha256_of(input@),
        r@.len() == 32,
{
    ring::digest::digest(&ring::digest::SHA256, input).as_ref().to_vec()
}

/// Relies on `ring::aead` with `AES_256_GCM`: `UnboundKey::new` accepts every
/// 32-byte key, `Nonce::try_assume_unique_for_key` accepts every 12-byte
/// slice, and `LessSafeKey::seal_in_place_append_tag` appends the 16-byte tag
/// and fails only on inputs far above `u32::MAX` bytes. The sealed bytes are
/// a function of key, nonce and plaintext alone, and opening them under the
/// same key and nonce recovers the plaintext.
#[verifier::external_body]
pub(crate) fn aead_seal(key: &[u8], nonce: &[u8], plaintext: &[u8]) -> (r: Vec<u8>)
    requires
        key@.len() == 32,
        nonce@.len() == 12,
        plaintext@.len() <= u32::MAX,
    ensures
        r@ == gcm_seal_of(key@, nonce@, plaintext@),
        r@.len() == plaintext@.len() + 16,
        gcm_open_of(key@, nonce@, r@) == Some(plaintext@),
{
    let unbound = ring::aead::UnboundKey::new(&ring::aead::AES_256_GCM, key).unwrap();
    let sealing = ring::aead::LessSafeKey::new(unbound);
    let n = ring::aead::Nonce::try_assume_unique_for_key(nonce).unwrap();
    let mut buf = plaintext.to_vec();
    sealing.seal_in_place_append_tag(n, ring::aead::Aad::empty(), &mut buf).unwrap();
    buf
}

/// Relies on `ring::aead` with `AES_256_GCM`: `UnboundKey::new` accepts every
/// 32-byte key, `Nonce::try_assume_unique_for_key` accepts every 12-byte
/// slice, and `LessSafeKey::open_in_place` returns the plaintext exactly when
/// the tag verifies, a function of key, nonce and sealed bytes alone; no
/// plaintext is released on failure.
#[verifier::external_body]
pub(crate) fn aead_open(key: &[u8], nonce: &[u8], sealed: &[u8]) -> (r: Option<Vec<u8>>)
    requires
        key@.len() == 32,
        nonce@.len() == 12,
    ensures
        r.deep_view() == gcm_open_of(key@, nonce@, sealed@),
{
    let unbound = ring::aead::UnboundKey::new(&ring::aead::AES_256_GCM, key).unwrap();
    let opening = ring::aead::LessSafeKey::new(unbound);
    let n = ring::aead::Nonce::try_assume_unique_for_key(nonce).unwrap();
    let mut buf = sealed.to_vec();
    match opening.open_in_place(n, ring::aead::Aad::empty(), &mut buf) {
        Ok(plain) => Some(plain.to_vec()),
        Err(_) => None,
    }
}

} // verus!
