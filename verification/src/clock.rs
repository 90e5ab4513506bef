//! Instants of coordinated universal time.

use vstd::prelude::*;

verus! {

/// An instant: whole seconds since the start of 1970, and the nanoseconds into that second.
#[derive(Debug, Clone, Copy, PartialEq, Eq, Structural)]
pub struct Timestamp {
    pub secs: i64,
    pub nanos: u32,
}

impl Timestamp {
    /// `self` is no earlier than `other`.
    pub open spec fn spec_not_before(self, other: Timestamp) -> bool {
        self.secs > other.secs || (self.secs == other.secs && self.nanos >= other.nanos)
    }

    /// Whether `self` is no earlier than `other`.
    pub fn not_before(self, other: Timestamp) -> (r: bool)
        ensures
            r == self.spec_not_before(other),
    {
        self.secs > other.secs || (self.secs == other.secs && self.nanos >= other.nanos)
    }

    /// The nanoseconds since the start of 1970, wrapping around at 64 bits; zero for an instant
    /// before 1970.
    pub open spec fn spec_nanos_since_epoch(self) -> u64 {
        if self.secs < 0 {
            0
        } else {
            ((self.secs * 1_000_000_000 + self.nanos) % 0x1_0000_0000_0000_0000) as u64
        }
    }

    /// The nanoseconds since the start of 1970, wrapping around at 64 bits; zero for an instant
    /// before 1970.
    pub fn nanos_since_epoch(self) -> (n: u64)
        ensures
            n == self.spec_nanos_since_epoch(),
    {
        if self.secs < 0 {
            0
        } else {
            let wide: u128 = (self.secs as u128) * 1_000_000_000u128 + (self.nanos as u128);
            (wide % 0x1_0000_0000_0000_0000u128) as u64
        }
    }
}

/// The sum of two times in milliseconds, held at the largest time where it would pass it.
pub open spec fn capped_sum(a: u64, b: u64) -> u64 {
    if a + b > u64::MAX {
        u64::MAX
    } else {
        (a + b) as u64
    }
}

/// Adds a span to a time in milliseconds; the result stops at the largest time.
pub fn add_capped(a: u64, b: u64) -> (r: u64)
    ensures
        r == capped_sum(a, b),
{
    if a > u64::MAX - b {
        u64::MAX
    } else {
        a + b
    }
}

/// Reads the system clock with `std::time::SystemTime::now` and has `chrono` turn the reading
/// into an instant of coordinated universal time, by its `From<SystemTime>` for
/// `DateTime<Utc>`.
///
/// Trusted, and nothing is claimed of the instant that comes back: it is whatever the system
/// clock says. A clock that stands before 1970 gives an instant with negative seconds; the
/// conversion fails only beyond the years that `chrono` can hold, some 262 000 years from
/// 1970, where no system clock stands.
#[verifier::external_body]
pub(crate) fn utc_now() -> (t: Timestamp) {
    let now = chrono::DateTime::<chrono::Utc>::from(std::time::SystemTime::now());
    Timestamp { secs: now.timestamp(), nanos: now.timestamp_subsec_nanos() }
}

} // verus!
