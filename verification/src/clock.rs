//! Wall-clock time source.

use vstd::prelude::*;

verus! {

/// Current wall-clock time as whole seconds since the Unix epoch.
///
/// Relies on `std::time::SystemTime::now` and
/// `SystemTime::duration_since(UNIX_EPOCH)`: the result is whatever the
/// system clock reads, so nothing can be promised of the value; a clock
/// set before the epoch reads as zero.
#[verifier::external_body]
pub fn now_secs() -> u64 {
    std::time::SystemTime::now()
        .duration_since(std::time::UNIX_EPOCH)
        .map(|d| d.as_secs())
        .unwrap_or(0)
}

} // verus!
