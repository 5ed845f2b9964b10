//! The wall clock.

use vstd::prelude::*;

verus! {

/// The latest reading that the clock gives.
pub const LATEST: u64 = 0x7fff_ffff_ffff_ffff;

/// Reads `chrono::Utc::now()` as whole seconds since the Unix epoch, as
/// `chrono` counts them. The value depends on the machine's clock, so nothing
/// is claimed of it. Where the machine's clock stands before 1970, the call
/// panics.
#[verifier::external_body]
fn clock_seconds() -> i64 {
    chrono::Utc::now().timestamp()
}

/// The time in whole seconds since the Unix epoch. A reading before the
/// epoch counts as the epoch.
pub(crate) fn unix_now() -> (now: u64)
    ensures
        now <= LATEST,
{
    let seconds = clock_seconds();
    if seconds < 0 {
        0
    } else {
        seconds as u64
    }
}

} // verus!
