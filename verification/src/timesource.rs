//! The time source: reads the wall clock and computes the non-negative
//! number of seconds until the target instant.

use vstd::prelude::*;

verus! {

/// The Unix timestamp at which a 32-bit signed second-counter overflows:
/// 2038-01-19 03:14:07 UTC, i.e. `i32::MAX` seconds after the epoch.
pub const DOOM_TS: u64 = 2_147_483_647;

/// Seconds left until `DOOM_TS` as seen from a clock reading `now`,
/// clamped to zero once the target instant has passed.
pub open spec fn spec_remaining(now: int) -> int {
    if now >= DOOM_TS {
        0
    } else {
        DOOM_TS - now
    }
}

/// Relies on `std::time::SystemTime::now` and
/// `SystemTime::duration_since(UNIX_EPOCH)`: the current wall-clock time
/// as whole seconds since the Unix epoch. Aborts the process if the clock
/// reports a time before the epoch, an unrecoverable environment fault.
#[verifier::external_body]
fn now_unix_seconds() -> u64 {
    std::time::SystemTime::now()
        .duration_since(std::time::UNIX_EPOCH)
        .expect("system clock reports a time before the Unix epoch")
        .as_secs()
}

/// Saturating difference between the target instant and a clock reading:
/// strictly positive before the target, exactly zero at or after it.
pub fn remaining_seconds(now: u64) -> (r: u64)
    ensures
        r == spec_remaining(now as int),
        now < DOOM_TS ==> r == DOOM_TS - now && r > 0,
        now >= DOOM_TS ==> r == 0,
{
    if now >= DOOM_TS {
        0
    } else {
        DOOM_TS - now
    }
}

/// Seconds left until `DOOM_TS` from the wall clock, clamped to zero.
/// The clock reading itself is outside the program's control; whatever it
/// was, the result is the saturating difference, hence at most `DOOM_TS`.
pub fn time_left() -> (r: u64)
    ensures
        r <= DOOM_TS,
{
    let now = now_unix_seconds();
    remaining_seconds(now)
}

} // verus!
