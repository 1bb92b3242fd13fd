//! Timestamps and durations, as plain seconds-plus-nanoseconds pairs.
//!
//! A stamp orders samples by its total nanosecond value; a duration bounds
//! how far into the past a chain retains samples.

use vstd::prelude::*;

verus! {

/// Nanoseconds in one second.
pub const NANOS_PER_SEC: u64 = 1_000_000_000;

/// A logical timestamp: whole seconds plus a sub-second nanosecond component.
#[derive(Clone, Copy, Debug, PartialEq, Eq, Structural)]
pub struct TfTime {
    pub secs: u32,
    pub nsecs: u32,
}

/// A non-negative duration: whole seconds plus a sub-second nanosecond component.
#[derive(Clone, Copy, Debug, PartialEq, Eq, Structural)]
pub struct TfDuration {
    pub secs: u32,
    pub nsecs: u32,
}

/// The total nanosecond value of a timestamp; stamps compare by this value.
pub open spec fn time_nanos(t: TfTime) -> int {
    t.secs as int * NANOS_PER_SEC as int + t.nsecs as int
}

/// The total nanosecond value of a duration.
pub open spec fn duration_nanos(d: TfDuration) -> int {
    d.secs as int * NANOS_PER_SEC as int + d.nsecs as int
}

impl TfTime {
    /// The total nanosecond value of this timestamp, computed executably.
    pub fn as_nanos(&self) -> (r: u64)
        ensures
            r as int == time_nanos(*self),
    {
        self.secs as u64 * NANOS_PER_SEC + self.nsecs as u64
    }

    /// True exactly on the distinguished zero/epoch timestamp.
    pub fn is_zero(&self) -> (r: bool)
        ensures
            r == (time_nanos(*self) == 0),
    {
        self.secs == 0 && self.nsecs == 0
    }
}

impl TfDuration {
    /// The total nanosecond value of this duration, computed executably.
    pub fn as_nanos(&self) -> (r: u64)
        ensures
            r as int == duration_nanos(*self),
    {
        self.secs as u64 * NANOS_PER_SEC + self.nsecs as u64
    }
}

} // verus!
