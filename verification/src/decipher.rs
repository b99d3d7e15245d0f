//! The transit decryption protocol: derivation of an ephemeral key from the
//! shared secret and the current time bucket, and authenticated decryption of
//! a base64 envelope into a JSON value.
//!
//! The envelope layout is `nonce(12 bytes) || ciphertext || tag(16 bytes)`,
//! base64-encoded. The key for bucket `b` is the SHA-256 digest of the byte
//! string `"{b}." + secret`, truncated to the configured key length; the
//! cipher is always AES-256-GCM, so any key length other than 32 is reported
//! as `KeyError` (a configuration error) rather than selecting another cipher
//! variant.

use vstd::prelude::*;
use vstd::slice::slice_subrange;
use vstd::slice::slice_to_vec;
use vstd::string::StringSliceAdditionalSpecFns;
use vstd::utf8::encode_utf8;

use crate::crypto::aead_open;
use crate::crypto::aead_seal;
use crate::crypto::gcm_open_of;
use crate::crypto::gcm_seal_of;
use crate::crypto::sha256;
use crate::crypto::sha256_of;
use crate::encoding::b64_decode;
use crate::encoding::b64_decode_of;
use crate::encoding::b64_encode;
use crate::errors::TransitError;
use crate::jsonio::json_parses;
use crate::jsonio::parse_json;

verus! {

/// The ASCII decimal digits of `n`, most significant first.
pub open spec fn u64_decimal(n: nat) -> Seq<u8>
    decreases n,
{
    if n < 10 {
        seq![(48 + n) as u8]
    } else {
        u64_decimal(n / 10).push((48 + n % 10) as u8)
    }
}

/// The byte string that is hashed to derive a key: the decimal bucket id, a
/// literal `.` separator, then the raw secret bytes.
pub open spec fn kdf_input(bucket: nat, secret: Seq<u8>) -> Seq<u8> {
    u64_decimal(bucket) + seq![46u8] + secret
}

/// The key for a bucket: the SHA-256 digest of the KDF input, truncated to
/// `len` bytes.
pub open spec fn spec_derived_key(secret: Seq<u8>, bucket: nat, len: nat) -> Seq<u8>
    recommends
        len <= 32,
{
    sha256_of(kdf_input(bucket, secret)).take(len as int)
}

/// The discrete time bucket at `now` seconds since the epoch.
pub open spec fn spec_bucket(now: u64, width: u64) -> nat
    recommends
        width >= 1,
{
    (now as nat) / (width as nat)
}

/// Appends the decimal digits of `n` to `out`.
fn push_decimal(n: u64, out: &mut Vec<u8>)
    ensures
        final(out)@ == old(out)@ + u64_decimal(n as nat),
    decreases n,
{
    if n >= 10 {
        push_decimal(n / 10, out);
    }
    out.push(48 + (n % 10) as u8);
    assert(final(out)@ =~= old(out)@ + u64_decimal(n as nat));
}

/// Derives the key for the bucket that `now` falls in: the SHA-256 digest of
/// `"{bucket}.{secret}"`, truncated to `transit_key_length` bytes.
pub fn derive_key_at(apikey: &str, transit_time_bucket: u64, transit_key_length: usize, now: u64) -> (r: Vec<u8>)
    requires
        transit_time_bucket >= 1,
        transit_key_length <= 32,
    ensures
        r@ == spec_derived_key(
            apikey.spec_bytes(),
            spec_bucket(now, transit_time_bucket),
            transit_key_length as nat,
        ),
        r@.len() == transit_key_length,
{
    let bucket: u64 = now / transit_time_bucket;
    let mut input: Vec<u8> = Vec::new();
    push_decimal(bucket, &mut input);
    input.push(46);
    let mut secret_bytes: Vec<u8> = slice_to_vec(apikey.as_bytes());
    input.append(&mut secret_bytes);
    assert(input@ =~= kdf_input(spec_bucket(now, transit_time_bucket), apikey.spec_bytes()));
    let mut key = sha256(input.as_slice());
    key.truncate(transit_key_length);
    key
}

/// Whether `key` is the bytes of the key this protocol derives for the
/// bucket that second `t` falls in.
pub open spec fn is_key_for_instant(
    key: Seq<u8>,
    secret: Seq<u8>,
    width: u64,
    len: nat,
    t: u64,
) -> bool {
    key == spec_derived_key(secret, spec_bucket(t, width), len)
}

/// What `derive_key` may return: a key properly derived for some instant, or
/// the clock failure.
pub open spec fn derive_key_post(
    r: Result<Vec<u8>, TransitError>,
    secret: Seq<u8>,
    width: u64,
    len: nat,
) -> bool {
    match r {
        Ok(key) => exists|t: u64| #[trigger] is_key_for_instant(key@, secret, width, len, t),
        Err(e) => e == TransitError::ClockError,
    }
}

/// Derives the key for the current time bucket, reading the system clock;
/// fails with `ClockError` when the clock reports a time before the epoch.
pub fn derive_key(apikey: &str, transit_time_bucket: u64, transit_key_length: usize) -> (r: Result<
    Vec<u8>,
    TransitError,
>)
    requires
        transit_time_bucket >= 1,
        transit_key_length <= 32,
    ensures
        derive_key_post(r, apikey.spec_bytes(), transit_time_bucket, transit_key_length as nat),
{
    match crate::clock::unix_now() {
        Some(now) => {
            let key = derive_key_at(apikey, transit_time_bucket, transit_key_length, now);
            let r: Result<Vec<u8>, TransitError> = Ok(key);
            proof {
                assert(is_key_for_instant(
                    r->Ok_0@,
                    apikey.spec_bytes(),
                    transit_time_bucket,
                    transit_key_length as nat,
                    now,
                ));
            }
            r
        },
        None => Err(TransitError::ClockError),
    }
}

/// The outcome of opening an envelope with a key, up to authentication: the
/// authenticated plaintext bytes, or the typed failure of the first stage
/// that rejects.
pub open spec fn spec_unseal(key: Seq<u8>, envelope: Seq<char>) -> Result<Seq<u8>, TransitError> {
    match b64_decode_of(envelope) {
        Option::None => Result::Err(TransitError::DecodeError),
        Option::Some(bytes) => if bytes.len() < 12 {
            Result::Err(TransitError::ShortEnvelopeError)
        } else if key.len() != 32 {
            Result::Err(TransitError::KeyError)
        } else {
            match gcm_open_of(key, bytes.take(12), bytes.skip(12)) {
                Option::None => Result::Err(TransitError::AuthenticationError),
                Option::Some(plain) => Result::Ok(plain),
            }
        },
    }
}

/// The outcome of a full decryption with a key: the authenticated plaintext
/// bytes, which must also parse as a JSON document.
pub open spec fn spec_decrypt(key: Seq<u8>, envelope: Seq<char>) -> Result<Seq<u8>, TransitError> {
    match spec_unseal(key, envelope) {
        Result::Err(e) => Result::Err(e),
        Result::Ok(plain) => if json_parses(plain) {
            Result::Ok(plain)
        } else {
            Result::Err(TransitError::PayloadFormatError)
        },
    }
}

/// Opens a base64 envelope (`nonce(12) || ciphertext || tag`) with the given
/// key and parses the authenticated plaintext as JSON.
///
/// The returned JSON value itself is opaque to the verifier; the contract
/// pins down exactly when each outcome occurs: the parsed document of the
/// authenticated plaintext on success, and otherwise the failure that
/// `spec_decrypt` gives for this key and envelope.
pub fn decrypt(key: &Vec<u8>, ciphertext: &str) -> (r: Result<serde_json::Value, TransitError>)
    ensures
        r is Ok <==> spec_decrypt(key@, ciphertext@) is Ok,
        r matches Err(e) ==> spec_decrypt(key@, ciphertext@) == Result::<Seq<u8>, TransitError>::Err(e),
{
    let bytes = match b64_decode(ciphertext) {
        Ok(b) => b,
        Err(_) => {
            return Err(TransitError::DecodeError);
        },
    };
    if bytes.len() < 12 {
        return Err(TransitError::ShortEnvelopeError);
    }
    if key.len() != 32 {
        return Err(TransitError::KeyError);
    }
    let nonce = slice_subrange(bytes.as_slice(), 0, 12);
    let sealed = slice_subrange(bytes.as_slice(), 12, bytes.len());
    proof {
        assert(nonce@ =~= bytes@.take(12));
        assert(sealed@ =~= bytes@.skip(12));
    }
    let plain = match aead_open(key.as_slice(), nonce, sealed) {
        Some(p) => p,
        None => {
            return Err(TransitError::AuthenticationError);
        },
    };
    proof {
        assert(plain.deep_view() =~= plain@);
        assert(gcm_open_of(key@, bytes@.take(12), bytes@.skip(12)) == Some(plain@));
    }
    match parse_json(plain.as_slice()) {
        Ok(value) => Ok(value),
        Err(_) => Err(TransitError::PayloadFormatError),
    }
}

/// The outcome of a transit decryption attempted at second `now`, as plain
/// bytes: the derived key for `now`'s bucket is applied to the envelope.
pub open spec fn spec_transit_outcome(
    apikey: Seq<char>,
    ciphertext: Seq<char>,
    key_length: nat,
    width: u64,
    now: u64,
) -> Result<Seq<u8>, TransitError> {
    spec_decrypt(
        spec_derived_key(encode_utf8(apikey), spec_bucket(now, width), key_length),
        ciphertext,
    )
}

/// Whether an executable decryption result agrees with a spec-level outcome:
/// the same success or the very same failure (the parsed value itself is
/// opaque to the verifier).
pub open spec fn agrees_with(
    r: Result<serde_json::Value, TransitError>,
    outcome: Result<Seq<u8>, TransitError>,
) -> bool {
    match r {
        Result::Ok(_) => outcome is Ok,
        Result::Err(e) => outcome == Result::<Seq<u8>, TransitError>::Err(e),
    }
}

/// Decrypts a transit envelope with the key of the bucket that `now` falls
/// in: derives `SHA256("{bucket}.{apikey}")[..transit_key_length]` and opens
/// the envelope with it.
pub fn transit_decrypt_at(
    apikey: &String,
    ciphertext: &String,
    transit_key_length: usize,
    transit_time_bucket: u64,
    now: u64,
) -> (r: Result<serde_json::Value, TransitError>)
    requires
        transit_key_length <= 32,
        transit_time_bucket >= 1,
    ensures
        agrees_with(
            r,
            spec_transit_outcome(
                apikey@,
                ciphertext@,
                transit_key_length as nat,
                transit_time_bucket,
                now,
            ),
        ),
{
    let key = derive_key_at(apikey.as_str(), transit_time_bucket, transit_key_length, now);
    decrypt(&key, ciphertext.as_str())
}

/// Decrypts a transit-encrypted payload with the key of the current time
/// bucket, read from the system clock.
///
/// Fails with `ClockError` when the clock reports a time before the UNIX
/// epoch; otherwise the result is the transit outcome for the instant the
/// clock reported.
pub fn transit_decrypt(
    apikey: &String,
    ciphertext: &String,
    transit_key_length: usize,
    transit_time_bucket: u64,
) -> (r: Result<serde_json::Value, TransitError>)
    requires
        transit_key_length <= 32,
        transit_time_bucket >= 1,
    ensures
        r == Result::<serde_json::Value, TransitError>::Err(TransitError::ClockError)
            || exists|t: u64|
            agrees_with(
                r,
                #[trigger] spec_transit_outcome(
                    apikey@,
                    ciphertext@,
                    transit_key_length as nat,
                    transit_time_bucket,
                    t,
                ),
            ),
{
    match crate::clock::unix_now() {
        Some(now) => {
            let r = transit_decrypt_at(
                apikey,
                ciphertext,
                transit_key_length,
                transit_time_bucket,
                now,
            );
            proof {
                assert(agrees_with(
                    r,
                    spec_transit_outcome(
                        apikey@,
                        ciphertext@,
                        transit_key_length as nat,
                        transit_time_bucket,
                        now,
                    ),
                ));
            }
            r
        },
        None => Err(TransitError::ClockError),
    }
}

/// Seals a payload into a transit envelope with the key of the bucket that
/// `now` falls in, so that decrypting it within the same bucket (and with the
/// same secret) recovers the payload.
///
/// Only the 32-byte key length fits the AES-256-GCM cipher; any other
/// requested length is a configuration error, reported as `KeyError`.
pub fn transit_encrypt_at(
    apikey: &String,
    payload: &Vec<u8>,
    nonce: &Vec<u8>,
    transit_key_length: usize,
    transit_time_bucket: u64,
    now: u64,
) -> (r: Result<String, TransitError>)
    requires
        transit_key_length <= 32,
        transit_time_bucket >= 1,
        nonce@.len() == 12,
        payload@.len() + 28 <= u32::MAX,
    ensures
        r is Ok <==> transit_key_length == 32,
        r matches Err(e) ==> e == TransitError::KeyError,
        r matches Ok(envelope) ==> spec_unseal(
            spec_derived_key(encode_utf8(apikey@), spec_bucket(now, transit_time_bucket), 32),
            envelope@,
        ) == Result::<Seq<u8>, TransitError>::Ok(payload@),
        r matches Ok(envelope) ==> spec_transit_outcome(
            apikey@,
            envelope@,
            32,
            transit_time_bucket,
            now,
        ) == (if json_parses(payload@) {
            Result::<Seq<u8>, TransitError>::Ok(payload@)
        } else {
            Result::<Seq<u8>, TransitError>::Err(TransitError::PayloadFormatError)
        }),
{
    if transit_key_length != 32 {
        return Err(TransitError::KeyError);
    }
    let key = derive_key_at(apikey.as_str(), transit_time_bucket, 32, now);
    let sealed = aead_seal(key.as_slice(), nonce.as_slice(), payload.as_slice());
    let mut envelope_bytes: Vec<u8> = slice_to_vec(nonce.as_slice());
    let mut sealed_tail = sealed;
    envelope_bytes.append(&mut sealed_tail);
    let envelope = b64_encode(envelope_bytes.as_slice());
    proof {
        assert(envelope_bytes@.take(12) =~= nonce@);
        assert(envelope_bytes@.skip(12) =~= gcm_seal_of(
            key@,
            nonce@,
            payload@,
        ));
    }
    Ok(envelope)
}

/// Law: deriving a key twice within the same bucket yields an identical key,
/// for every secret, bucket width and key length.
pub proof fn lemma_derive_key_deterministic(secret: Seq<u8>, width: u64, len: nat, t1: u64, t2: u64)
    requires
        width >= 1,
        spec_bucket(t1, width) == spec_bucket(t2, width),
    ensures
        spec_derived_key(secret, spec_bucket(t1, width), len) == spec_derived_key(
            secret,
            spec_bucket(t2, width),
            len,
        ),
{
}

proof fn lemma_u64_decimal_len(n: nat)
    ensures
        u64_decimal(n).len() >= 1,
        n >= 10 ==> u64_decimal(n).len() >= 2,
    decreases n,
{
    if n >= 10 {
        lemma_u64_decimal_len(n / 10);
    }
}

proof fn lemma_u64_decimal_injective(a: nat, b: nat)
    requires
        u64_decimal(a) == u64_decimal(b),
    ensures
        a == b,
    decreases a,
{
    lemma_u64_decimal_len(a);
    lemma_u64_decimal_len(b);
    if a < 10 && b < 10 {
        assert(u64_decimal(a)[0] == (48 + a) as u8);
        assert(u64_decimal(b)[0] == (48 + b) as u8);
        assert(u64_decimal(a)[0] == u64_decimal(b)[0]);
        assert(((48 + a) as u8) as nat == 48 + a);
        assert(((48 + b) as u8) as nat == 48 + b);
    } else if a < 10 && b >= 10 {
        assert(u64_decimal(a).len() == 1);
    } else if a >= 10 && b < 10 {
        assert(u64_decimal(b).len() == 1);
    } else {
        assert(u64_decimal(a).drop_last() =~= u64_decimal(a / 10));
        assert(u64_decimal(b).drop_last() =~= u64_decimal(b / 10));
        lemma_u64_decimal_injective(a / 10, b / 10);
        assert(u64_decimal(a).last() == (48 + a % 10) as u8);
        assert(u64_decimal(b).last() == (48 + b % 10) as u8);
        assert(((48 + a % 10) as u8) as nat == 48 + a % 10);
        assert(((48 + b % 10) as u8) as nat == 48 + b % 10);
        assert(a % 10 == b % 10);
        vstd::arithmetic::div_mod::lemma_fundamental_div_mod(a as int, 10);
        vstd::arithmetic::div_mod::lemma_fundamental_div_mod(b as int, 10);
    }
}

/// Law (the provable part of bucket separation): two distinct buckets hash
/// two distinct digest inputs, whatever the secret. That the resulting keys
/// differ, and that decryption under the wrong bucket's key fails
/// authentication, rests on SHA-256 and AES-GCM themselves and is exercised
/// by tests rather than stated here.
pub proof fn lemma_distinct_buckets_distinct_kdf_input(secret: Seq<u8>, b1: nat, b2: nat)
    requires
        b1 != b2,
    ensures
        kdf_input(b1, secret) != kdf_input(b2, secret),
{
    if kdf_input(b1, secret) == kdf_input(b2, secret) {
        let d1 = u64_decimal(b1);
        let d2 = u64_decimal(b2);
        assert(kdf_input(b1, secret).len() == d1.len() + 1 + secret.len());
        assert(kdf_input(b2, secret).len() == d2.len() + 1 + secret.len());
        assert(d1.len() == d2.len());
        assert forall|i: int| 0 <= i < d1.len() implies d1[i] == d2[i] by {
            assert(kdf_input(b1, secret)[i] == kdf_input(b2, secret)[i]);
        }
        assert(d1 =~= d2);
        lemma_u64_decimal_injective(b1, b2);
    }
}

/// Law: a string that is not valid base64 fails with `DecodeError`, whatever
/// the key; no cryptographic stage is reached.
pub proof fn lemma_non_base64_rejected(key: Seq<u8>, envelope: Seq<char>)
    requires
        b64_decode_of(envelope) is None,
    ensures
        spec_decrypt(key, envelope) == Result::<Seq<u8>, TransitError>::Err(
            TransitError::DecodeError,
        ),
{
}

/// Law: an envelope decoding to fewer than 12 bytes fails with
/// `ShortEnvelopeError`, independent of its content and of the key.
pub proof fn lemma_short_envelope_rejected(key: Seq<u8>, envelope: Seq<char>)
    requires
        b64_decode_of(envelope) matches Some(bytes) && bytes.len() < 12,
    ensures
        spec_decrypt(key, envelope) == Result::<Seq<u8>, TransitError>::Err(
            TransitError::ShortEnvelopeError,
        ),
{
}

/// Law: decryption never reports `NonceError`: the nonce is taken by
/// fixed-length slicing, so its construction cannot fail.
pub proof fn lemma_no_nonce_error(key: Seq<u8>, envelope: Seq<char>)
    ensures
        spec_decrypt(key, envelope) != Result::<Seq<u8>, TransitError>::Err(
            TransitError::NonceError,
        ),
{
}

} // verus!
