//! The system clock, the one source of the current time.
use vstd::prelude::*;

verus! {

/// `std::time::UNIX_EPOCH.elapsed()`: the time elapsed since the Unix epoch
/// by the system clock, or `None` when the clock reads before the epoch.
/// Nothing is stated of the value: it depends on the machine's clock.
#[verifier::external_body]
pub(crate) fn elapsed_since_epoch() -> Option<core::time::Duration> {
    match std::time::UNIX_EPOCH.elapsed() {
        Ok(elapsed) => Some(elapsed),
        Err(_) => None,
    }
}

/// `Duration::as_secs`: the whole seconds of a duration. The duration is
/// opaque here, so nothing is stated of the result.
pub assume_specification[ core::time::Duration::as_secs ](duration: &core::time::Duration) -> u64;

} // verus!
