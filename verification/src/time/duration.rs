//! Durations counted in ticks of one nanosecond.
use vstd::prelude::*;

verus! {

/// Ticks in a nanosecond.
pub const NANOSECOND: u64 = 1;

/// Ticks in a microsecond.
pub const MICROSECOND: u64 = 1_000;

/// Ticks in a millisecond.
pub const MILLISECOND: u64 = 1_000_000;

/// Ticks in a second.
pub const SECOND: u64 = 1_000_000_000;

/// Ticks in a minute.
pub const MINUTE: u64 = 60_000_000_000;

/// Ticks in an hour.
pub const HOUR: u64 = 3_600_000_000_000;

/// Ticks in a day.
pub const DAY: u64 = 86_400_000_000_000;

/// A simple duration type representing time durations in ticks (nanoseconds)
#[derive(Debug, Clone, Copy, PartialEq, Eq, PartialOrd, Ord, Structural)]
pub struct Duration(u64);

impl Duration {
    /// The number of ticks.
    pub closed spec fn ticks(&self) -> u64 {
        self.0
    }

    /// Create a new Duration from ticks (nanoseconds)
    pub fn from_u64(ticks: u64) -> (r: Self)
        ensures
            r.ticks() == ticks,
    {
        Self(ticks)
    }

    /// Get the duration in ticks (nanoseconds)
    pub fn as_u64(&self) -> (r: u64)
        ensures
            r == self.ticks(),
    {
        self.0
    }

    /// Create a new Duration from nanoseconds
    pub fn from_nanoseconds(nanoseconds: u64) -> (r: Self)
        ensures
            r.ticks() == nanoseconds,
    {
        Self::from_u64(nanoseconds * NANOSECOND)
    }

    /// Create a new Duration from microseconds
    pub fn from_microseconds(microseconds: u64) -> (r: Self)
        requires
            microseconds * MICROSECOND <= u64::MAX,
        ensures
            r.ticks() == microseconds * MICROSECOND,
    {
        Self::from_u64(microseconds * MICROSECOND)
    }

    /// Create a new Duration from milliseconds
    pub fn from_milliseconds(milliseconds: u64) -> (r: Self)
        requires
            milliseconds * MILLISECOND <= u64::MAX,
        ensures
            r.ticks() == milliseconds * MILLISECOND,
    {
        Self::from_u64(milliseconds * MILLISECOND)
    }

    /// Create a new Duration from seconds
    pub fn from_seconds(seconds: u64) -> (r: Self)
        requires
            seconds * SECOND <= u64::MAX,
        ensures
            r.ticks() == seconds * SECOND,
    {
        Self::from_u64(seconds * SECOND)
    }

    /// The zero duration.
    pub fn zero() -> (r: Self)
        ensures
            r.ticks() == 0,
    {
        Self(0)
    }
}

/// The units agree: a second is a thousand milliseconds, a millisecond a
/// thousand microseconds, a microsecond a thousand nanoseconds, and the
/// larger units are the usual multiples.
pub proof fn lemma_units()
    ensures
        MICROSECOND == 1000 * NANOSECOND,
        MILLISECOND == 1000 * MICROSECOND,
        SECOND == 1000 * MILLISECOND,
        MINUTE == 60 * SECOND,
        HOUR == 60 * MINUTE,
        DAY == 24 * HOUR,
{
}

} // verus!
