//! Instants and durations on a free-running 32-bit microsecond counter.

use vstd::prelude::*;

verus! {

/// Number of distinct values of the counter.
pub const COUNTER_RANGE: u64 = 0x1_0000_0000;

/// A number of microseconds: either an instant, counted from some fixed point
/// by a counter that wraps, or the distance between two instants.
///
/// Two instants are related only through [`Microseconds::since`].
#[derive(Debug, Clone, Copy, PartialEq, Eq, Structural, PartialOrd, Ord)]
pub struct Microseconds(pub u32);

impl Microseconds {
    /// Ticks that lead from `start` to `self`, counted modulo the counter's range.
    pub open spec fn ticks_since(self, start: Microseconds) -> int {
        (self.0 - start.0) % (COUNTER_RANGE as int)
    }

    /// The instant that the counter shows `ticks` after `self`.
    pub open spec fn ticks_later(self, ticks: int) -> Microseconds {
        Microseconds(((self.0 + ticks) % (COUNTER_RANGE as int)) as u32)
    }

    /// Time elapsed from `start` to `self`.
    ///
    /// The subtraction wraps, so the result is right even when the counter
    /// passed its maximum between the two readings.
    pub fn since(self, start: Microseconds) -> (elapsed: Microseconds)
        ensures
            elapsed.0 == self.ticks_since(start),
    {
        Microseconds(self.0.wrapping_sub(start.0))
    }
}

/// A counter that ran for `ticks` microseconds from `start`, fewer than its
/// range, shows an instant from which the elapsed time is exactly `ticks`,
/// whether or not the counter wrapped on the way.
pub proof fn law_elapsed_survives_wraparound(start: Microseconds, ticks: int)
    requires
        0 <= ticks < COUNTER_RANGE,
    ensures
        start.ticks_later(ticks).ticks_since(start) == ticks,
{
}

} // verus!
