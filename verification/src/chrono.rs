//! Monotonic stopwatch over the free-running cycle counter: elapsed
//! fixed-point seconds since the last split, wrap-safe.

use vstd::prelude::*;

verus! {

/// Fixed-point seconds elapsed between two counter readings at a given
/// clock rate; the counter wraps at 32 bits.
pub open spec fn spec_elapsed(last: int, now: int, hz: int) -> int
    recommends
        hz > 0,
{
    (((now - last) % 0x1_0000_0000) * 1_000_000) / hz
}

/// The stopwatch: the clock rate the counter runs at and the reading of the
/// last split.
pub struct DwtClock {
    /// Counter ticks per second.
    pub sysclk_hz: u32,
    /// The counter at the last split.
    pub last: u32,
}

/// Make the stopwatch for a clock rate, starting at the current counter
/// reading.
pub fn rtfm_stopwatch(sysclk_hz: u32, now: u32) -> (c: DwtClock)
    requires
        sysclk_hz > 0,
    ensures
        c == (DwtClock { sysclk_hz, last: now }),
{
    DwtClock::new(sysclk_hz, now)
}

impl DwtClock {
    /// A stopwatch whose first split will measure from `now`.
    pub fn new(sysclk_hz: u32, now: u32) -> (c: DwtClock)
        requires
            sysclk_hz > 0,
        ensures
            c == (DwtClock { sysclk_hz, last: now }),
    {
        DwtClock { sysclk_hz, last: now }
    }

    /// Start a new cycle at the given counter reading without using the
    /// elapsed time.
    pub fn reset(&mut self, now: u32)
        ensures
            *final(self) == (DwtClock { last: now, ..*old(self) }),
    {
        self.last = now;
    }

    /// Elapsed fixed-point seconds since the last split, and start a new
    /// cycle at the given counter reading.
    pub fn split_time_s(&mut self, now: u32) -> (dt: i64)
        requires
            old(self).sysclk_hz > 0,
        ensures
            *final(self) == (DwtClock { last: now, ..*old(self) }),
            dt as int == spec_elapsed(old(self).last as int, now as int, old(self).sysclk_hz as int),
    {
        let cycles: u32 = now.wrapping_sub(self.last);
        let micros: u64 = (cycles as u64) * 1_000_000u64 / (self.sysclk_hz as u64);
        self.last = now;
        proof {
            assert(cycles as int == (now as int - old(self).last as int) % 0x1_0000_0000);
            assert((cycles as int) * 1_000_000 <= 0xFFFF_FFFF * 1_000_000int);
        }
        micros as i64
    }
}

} // verus!
