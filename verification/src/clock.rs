//! Trusted wrapper around the system clock, the only ambient state the
//! protocol reads.

use vstd::prelude::*;

verus! {

/// Relies on `std::time::SystemTime::now`: the wall-clock seconds since the
/// UNIX epoch, or `None` when the clock reports an earlier time. Nothing can
/// be promised of the value itself.
#[verifier::external_body]
pub(crate) fn unix_now() -> (r: Option<u64>) {
    match std::time::SystemTime::now().duration_since(std::time::UNIX_EPOCH) {
        Ok(duration) => Some(duration.as_secs()),
        Err(_) => None,
    }
}

} // verus!
