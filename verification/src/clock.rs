//! The system clock. A reading can only be taken, never made up: its value
//! lives in a private field that only `read_clock` fills.
use vstd::prelude::*;

use crate::tokens::CLOCK_MAX;

verus! {

/// Trusted: `chrono::Utc::now().timestamp()`, the current Unix time in seconds.
/// Stated is only its range: `Utc::now` panics on a system clock before the
/// Unix epoch, and a `chrono` date-time ends at `DateTime::<Utc>::MAX_UTC`. The
/// value depends on the clock.
#[verifier::external_body]
fn utc_now_timestamp() -> (now: i64)
    ensures
        0 <= now <= CLOCK_MAX,
{
    chrono::Utc::now().timestamp()
}

/// A reading of the system clock, in seconds since the Unix epoch.
pub struct ClockReading {
    secs: i64,
}

impl ClockReading {
    /// Every reading lies between the Unix epoch and the end of the clock's
    /// range.
    #[verifier::type_invariant]
    spec fn in_range(self) -> bool {
        0 <= self.secs <= CLOCK_MAX
    }

    /// The Unix time read, in seconds.
    pub closed spec fn seconds(&self) -> i64 {
        self.secs
    }

    /// The Unix time read, in seconds.
    pub fn unix_seconds(&self) -> (s: i64)
        ensures
            s == self.seconds(),
            0 <= s <= CLOCK_MAX,
    {
        proof {
            use_type_invariant(self);
        }
        self.secs
    }
}

/// Reads the system clock.
pub fn read_clock() -> (r: ClockReading)
    ensures
        0 <= r.seconds() <= CLOCK_MAX,
{
    let secs = utc_now_timestamp();
    ClockReading { secs }
}

} // verus!
