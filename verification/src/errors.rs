//! The typed failures of the transit decryption protocol.

use vstd::prelude::*;

verus! {

/// Every way a transit decryption can fail, one variant per stage.
///
/// `ClockError` is fatal (the host clock is before the epoch); `DecodeError`
/// and `ShortEnvelopeError` are caller input errors; `KeyError` is a
/// configuration error (the derived key does not fit the cipher);
/// `NonceError` would be an invariant violation, since the nonce is taken by
/// fixed-length slicing; `AuthenticationError` covers both tampering and a
/// key derived for another time bucket, without distinguishing the two;
/// `PayloadFormatError` means the authenticated plaintext is not valid JSON.
#[derive(Clone, Copy, Debug, PartialEq, Eq, Structural)]
pub enum TransitError {
    ClockError,
    DecodeError,
    ShortEnvelopeError,
    KeyError,
    NonceError,
    AuthenticationError,
    PayloadFormatError,
}

impl TransitError {
    /// The human-readable description of the failure.
    pub open spec fn spec_message(self) -> Seq<char> {
        match self {
            TransitError::ClockError => "System time is before the UNIX epoch"@,
            TransitError::DecodeError => "Failed to decode ciphertext"@,
            TransitError::ShortEnvelopeError => "Ciphertext is too short"@,
            TransitError::KeyError => "Failed to create AES key"@,
            TransitError::NonceError => "Failed to create nonce"@,
            TransitError::AuthenticationError => "Failed to decrypt data"@,
            TransitError::PayloadFormatError => "Failed to parse decrypted data as JSON"@,
        }
    }

    /// The human-readable description of the failure.
    pub fn message(&self) -> (r: &'static str)
        ensures
            r@ == self.spec_message(),
    {
        match self {
            TransitError::ClockError => "System time is before the UNIX epoch",
            TransitError::DecodeError => "Failed to decode ciphertext",
            TransitError::ShortEnvelopeError => "Ciphertext is too short",
            TransitError::KeyError => "Failed to create AES key",
            TransitError::NonceError => "Failed to create nonce",
            TransitError::AuthenticationError => "Failed to decrypt data",
            TransitError::PayloadFormatError => "Failed to parse decrypted data as JSON",
        }
    }
}

} // verus!
