//! Wall-clock readings as plain integers.

use vstd::prelude::*;

verus! {

/// A wall-clock reading: nanoseconds counted from the Unix epoch, negative
/// for an instant before it.
#[derive(Debug, Clone, Copy, PartialEq, Eq, Structural, PartialOrd, Ord, Hash)]
pub struct Timestamp(pub i128);

/// One more than the largest `u64`.
pub const U64_RANGE: u128 = 0x1_0000_0000_0000_0000;

/// Nanoseconds since the Unix epoch as OTLP carries them: zero for a
/// reading before the epoch, else the count reduced to 64 bits.
pub open spec fn unix_nanos(t: Timestamp) -> u64 {
    if t.0 < 0 {
        0
    } else {
        ((t.0 as int) % (U64_RANGE as int)) as u64
    }
}

impl Timestamp {
    /// Whether this reading lies before the Unix epoch, that is, whether
    /// the clock went backwards past it.
    pub fn predates_epoch(&self) -> (before: bool)
        ensures
            before == (self.0 < 0),
    {
        self.0 < 0
    }

    /// The later of two readings.
    pub fn latest(self, other: Timestamp) -> (t: Timestamp)
        ensures
            t == (if self.0 <= other.0 { other } else { self }),
    {
        if self.0 <= other.0 {
            other
        } else {
            self
        }
    }
}

/// Converts a wall-clock reading to OTLP's unsigned nanoseconds since the
/// Unix epoch. A reading before the epoch becomes zero.
pub fn system_time_to_unix_nanos(t: &Timestamp) -> (nanos: u64)
    ensures
        nanos == unix_nanos(*t),
        0 <= t.0 < U64_RANGE ==> nanos == t.0,
{
    if t.0 < 0 {
        0
    } else {
        let count: u128 = t.0 as u128;
        let low: u128 = count % U64_RANGE;
        low as u64
    }
}

} // verus!

verus! {

/// `std::time::Instant`, a reading of the monotonic clock. Nothing inside it
/// is visible here.
#[verifier::external_type_specification]
#[verifier::external_body]
pub struct ExInstant(std::time::Instant);

/// The length of a `Duration` in nanoseconds, which is what
/// `Duration::as_nanos` returns.
pub uninterp spec fn duration_nanos(d: std::time::Duration) -> nat;

/// `Duration::as_nanos` returns the total number of nanoseconds that the
/// duration holds.
pub assume_specification[ std::time::Duration::as_nanos ](d: &std::time::Duration) -> (nanos: u128)
    ensures
        nanos == duration_nanos(*d),
;

/// `Duration::from_secs` makes a duration of that many whole seconds.
pub assume_specification[ std::time::Duration::from_secs ](secs: u64) -> (d: std::time::Duration)
    ensures
        duration_nanos(d) == secs * 1_000_000_000,
;

/// `Instant::now` reads the monotonic clock. Nothing is claimed of the
/// reading.
pub assume_specification[ std::time::Instant::now ]() -> std::time::Instant;

/// `Instant::elapsed` returns the time that has passed since the instant
/// was taken. Nothing is claimed of it.
pub assume_specification[ std::time::Instant::elapsed ](
    origin: &std::time::Instant,
) -> std::time::Duration;

} // verus!
