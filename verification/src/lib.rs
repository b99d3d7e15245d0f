//! Client-side core of a transit-decryption protocol: an ephemeral symmetric
//! key is derived from a shared secret and the current time bucket, and a
//! base64 envelope (nonce plus sealed data) is opened with AES-256-GCM and
//! parsed as a JSON document.
//!
//! The cryptographic primitives (SHA-256, AES-256-GCM), the base64 codec and
//! the JSON parser come from outside crates and are relied upon through small
//! trusted wrappers; everything around them is verified.

mod clock;
pub mod crypto;
pub mod decipher;
pub mod encoding;
pub mod enums;
pub mod errors;
pub mod jsonio;
pub mod parser;
pub mod request;
pub mod util;
