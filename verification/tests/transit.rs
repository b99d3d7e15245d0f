//! End-to-end tests of the transit decryption protocol, with the real
//! cryptographic crates linked.

use base64::Engine as _;
use vaultapi::decipher::{
    decrypt, derive_key, derive_key_at, transit_decrypt, transit_decrypt_at, transit_encrypt_at,
};
use vaultapi::errors::TransitError;

/// SHA-256 of `"2.s3cr3t"`: the key for secret `s3cr3t`, bucket width 60,
/// clock frozen at t = 120 (bucket 2).
const KEY_BUCKET_2: [u8; 32] = [
    0x46, 0x74, 0xf3, 0xa0, 0x75, 0xfa, 0xbc, 0x62, 0x04, 0xdd, 0xbd, 0xf1, 0x1b, 0x32, 0x84,
    0x39, 0xb4, 0xb6, 0xd1, 0xdf, 0xf3, 0x2e, 0x71, 0xd6, 0x98, 0xae, 0xdf, 0xdb, 0x7d, 0x0c,
    0xbc, 0x8c,
];

fn secret() -> String {
    "s3cr3t".to_string()
}

/// Builds the envelope of the concrete scenario independently of the
/// library: nonce of 12 zero bytes, payload `{"a":1}`, key for bucket 2.
fn scenario_envelope_by_hand() -> String {
    let unbound = ring::aead::UnboundKey::new(&ring::aead::AES_256_GCM, &KEY_BUCKET_2).unwrap();
    let key = ring::aead::LessSafeKey::new(unbound);
    let nonce = ring::aead::Nonce::assume_unique_for_key([0u8; 12]);
    let mut buf = b"{\"a\":1}".to_vec();
    key.seal_in_place_append_tag(nonce, ring::aead::Aad::empty(), &mut buf)
        .unwrap();
    let mut envelope_bytes = vec![0u8; 12];
    envelope_bytes.extend_from_slice(&buf);
    base64::engine::general_purpose::STANDARD.encode(&envelope_bytes)
}

fn scenario_envelope() -> String {
    let payload = b"{\"a\":1}".to_vec();
    let nonce = vec![0u8; 12];
    transit_encrypt_at(&secret(), &payload, &nonce, 32, 60, 120).unwrap()
}

#[test]
fn derived_key_matches_digest_of_bucket_and_secret() {
    let key = derive_key_at("s3cr3t", 60, 32, 120);
    assert_eq!(key, KEY_BUCKET_2.to_vec());
}

#[test]
fn derived_key_is_truncated_to_requested_length() {
    let key = derive_key_at("s3cr3t", 60, 16, 120);
    assert_eq!(key, KEY_BUCKET_2[..16].to_vec());
}

#[test]
fn derived_key_is_deterministic_within_a_bucket() {
    let first = derive_key_at("s3cr3t", 60, 32, 120);
    let second = derive_key_at("s3cr3t", 60, 32, 179);
    assert_eq!(first, second);
}

#[test]
fn derived_key_changes_across_buckets() {
    let first = derive_key_at("s3cr3t", 60, 32, 120);
    let second = derive_key_at("s3cr3t", 60, 32, 180);
    assert_ne!(first, second);
}

#[test]
fn derive_key_from_clock_has_requested_length() {
    let key = derive_key("s3cr3t", 60, 32).unwrap();
    assert_eq!(key.len(), 32);
}

#[test]
fn sealing_matches_independent_construction() {
    assert_eq!(scenario_envelope(), scenario_envelope_by_hand());
}

#[test]
fn frozen_clock_roundtrip_recovers_the_document() {
    let envelope = scenario_envelope_by_hand();
    let value = transit_decrypt_at(&secret(), &envelope, 32, 60, 120).unwrap();
    let expected: serde_json::Value = serde_json::from_str("{\"a\":1}").unwrap();
    assert_eq!(value, expected);
}

#[test]
fn next_bucket_fails_authentication() {
    let envelope = scenario_envelope_by_hand();
    let result = transit_decrypt_at(&secret(), &envelope, 32, 60, 185);
    assert_eq!(result.unwrap_err(), TransitError::AuthenticationError);
}

#[test]
fn key_of_next_bucket_fails_authentication() {
    let envelope = scenario_envelope_by_hand();
    let key = derive_key_at("s3cr3t", 60, 32, 180);
    let result = decrypt(&key, &envelope);
    assert_eq!(result.unwrap_err(), TransitError::AuthenticationError);
}

#[test]
fn every_bit_flip_in_the_sealed_part_fails_authentication() {
    let envelope = scenario_envelope_by_hand();
    let bytes = base64::engine::general_purpose::STANDARD
        .decode(&envelope)
        .unwrap();
    for byte_index in 12..bytes.len() {
        for bit in 0..8 {
            let mut tampered = bytes.clone();
            tampered[byte_index] ^= 1u8 << bit;
            let tampered_envelope =
                base64::engine::general_purpose::STANDARD.encode(&tampered);
            let result = transit_decrypt_at(&secret(), &tampered_envelope, 32, 60, 120);
            assert_eq!(result.unwrap_err(), TransitError::AuthenticationError);
        }
    }
}

#[test]
fn short_envelope_is_rejected() {
    // "QUJD" decodes to the 3 bytes "ABC".
    let result = transit_decrypt_at(&secret(), &"QUJD".to_string(), 32, 60, 120);
    assert_eq!(result.unwrap_err(), TransitError::ShortEnvelopeError);
}

#[test]
fn short_envelope_is_rejected_independent_of_content_and_key_length() {
    let eleven = base64::engine::general_purpose::STANDARD.encode([7u8; 11]);
    for key_length in [16usize, 32usize] {
        let result = transit_decrypt_at(&secret(), &eleven, key_length, 60, 120);
        assert_eq!(result.unwrap_err(), TransitError::ShortEnvelopeError);
    }
    let empty = transit_decrypt_at(&secret(), &String::new(), 32, 60, 120);
    assert_eq!(empty.unwrap_err(), TransitError::ShortEnvelopeError);
}

#[test]
fn non_base64_is_rejected() {
    let result = transit_decrypt_at(&secret(), &"not-base64!!".to_string(), 32, 60, 120);
    assert_eq!(result.unwrap_err(), TransitError::DecodeError);
}

#[test]
fn key_length_other_than_32_is_a_key_error() {
    let envelope = scenario_envelope_by_hand();
    let result = transit_decrypt_at(&secret(), &envelope, 16, 60, 120);
    assert_eq!(result.unwrap_err(), TransitError::KeyError);
}

#[test]
fn non_json_plaintext_is_a_payload_format_error() {
    let payload = vec![0xffu8, 0xfe, 0x00];
    let nonce = vec![0u8; 12];
    let envelope = transit_encrypt_at(&secret(), &payload, &nonce, 32, 60, 120).unwrap();
    let result = transit_decrypt_at(&secret(), &envelope, 32, 60, 120);
    assert_eq!(result.unwrap_err(), TransitError::PayloadFormatError);
}

#[test]
fn sealing_with_wrong_key_length_is_a_key_error() {
    let payload = b"{}".to_vec();
    let nonce = vec![0u8; 12];
    let result = transit_encrypt_at(&secret(), &payload, &nonce, 16, 60, 120);
    assert_eq!(result.unwrap_err(), TransitError::KeyError);
}

#[test]
fn live_clock_roundtrip_within_one_bucket() {
    // A bucket width this large makes the encrypt and decrypt calls land in
    // the same bucket whatever instants the clock reports for them.
    let width: u64 = 1u64 << 40;
    let now = std::time::SystemTime::now()
        .duration_since(std::time::UNIX_EPOCH)
        .unwrap()
        .as_secs();
    let payload = b"{\"k\":\"v\"}".to_vec();
    let nonce = vec![9u8; 12];
    let envelope = transit_encrypt_at(&secret(), &payload, &nonce, 32, width, now).unwrap();
    let value = transit_decrypt(&secret(), &envelope, 32, width).unwrap();
    let expected: serde_json::Value = serde_json::from_str("{\"k\":\"v\"}").unwrap();
    assert_eq!(value, expected);
}

#[test]
fn error_messages_match_the_protocol() {
    assert_eq!(
        TransitError::ClockError.message(),
        "System time is before the UNIX epoch"
    );
    assert_eq!(TransitError::DecodeError.message(), "Failed to decode ciphertext");
    assert_eq!(TransitError::ShortEnvelopeError.message(), "Ciphertext is too short");
    assert_eq!(TransitError::KeyError.message(), "Failed to create AES key");
    assert_eq!(TransitError::NonceError.message(), "Failed to create nonce");
    assert_eq!(TransitError::AuthenticationError.message(), "Failed to decrypt data");
    assert_eq!(
        TransitError::PayloadFormatError.message(),
        "Failed to parse decrypted data as JSON"
    );
}
