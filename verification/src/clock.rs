//! The wall clock.

use vstd::prelude::*;

verus! {

/// The seconds since the epoch that no reading of the clock reaches: the
/// clock's moments end with the year 262142.
pub const CLOCK_LIMIT: i64 = 0x800_0000_0000;

/// Whether the clock can read `now`, in seconds since the epoch.
pub open spec fn clock_reading(now: i64) -> bool {
    0 <= now < CLOCK_LIMIT
}

/// Calls `chrono::Utc::now().timestamp()`: the clock's seconds since the
/// epoch.
///
/// The value depends on the moment. Claimed of every outcome: it is not
/// negative and below `CLOCK_LIMIT`, since `Utc::now` gives only moments
/// from the epoch on that its dates can hold.
#[verifier::external_body]
pub(crate) fn unix_now() -> (now: i64)
    ensures
        clock_reading(now),
{
    chrono::Utc::now().timestamp()
}

/// Calls `chrono::Utc::now().timestamp_micros()`: the clock's microseconds
/// since the epoch. Nothing is claimed of the value.
#[verifier::external_body]
pub(crate) fn unix_micros() -> i64 {
    chrono::Utc::now().timestamp_micros()
}

} // verus!
