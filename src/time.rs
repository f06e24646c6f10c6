//! Elapsed time, counted in microseconds.
use vstd::prelude::*;

verus! {

/// A span of time in microseconds.
#[derive(Debug, Clone, Copy, PartialEq, Eq, Structural)]
pub struct Duration {
    pub micros: u64,
}

impl Duration {
    pub fn from_micros(micros: u64) -> (r: Duration)
        ensures
            r.micros == micros,
    {
        Duration { micros }
    }

    pub fn from_millis(ms: u64) -> (r: Duration)
        requires
            ms <= u64::MAX / 1000,
        ensures
            r.micros == ms * 1000,
    {
        Duration { micros: ms * 1000 }
    }

    /// Whole milliseconds, rounded down.
    pub fn to_millis(&self) -> (r: u64)
        ensures
            r == self.micros / 1000,
    {
        self.micros / 1000
    }

    pub fn is_zero(&self) -> (r: bool)
        ensures
            r == (self.micros == 0),
    {
        self.micros == 0
    }
}

} // verus!
