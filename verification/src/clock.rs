//! The construction-time clock.

use vstd::prelude::*;

verus! {

/// Relies on std::time::SystemTime::now: the seconds of the current time
/// since the Unix epoch, zero where the clock reads before the epoch.
/// The reading depends on the environment, so nothing is stated of it.
#[verifier::external_body]
pub(crate) fn now_seconds() -> u64 {
    match std::time::SystemTime::now().duration_since(std::time::UNIX_EPOCH) {
        Ok(d) => d.as_secs(),
        Err(_) => 0,
    }
}

} // verus!
