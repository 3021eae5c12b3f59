//! Frame pacing: wall-clock delta time between ticks.

use vstd::prelude::*;

verus! {

/// Tracks the monotonic clock between frames. Each tick reports the time
/// elapsed since the previous one, in microseconds, and the report is always
/// strictly positive so that a frame-rate display computing `1 / delta`
/// never divides by zero.
pub struct FramePacer {
    /// Clock reading, in microseconds, at the end of the previous tick.
    pub last_micros: u64,
}

impl FramePacer {
    /// The delta a tick reports when the clock reads `now_micros`.
    pub open spec fn spec_delta(self, now_micros: u64) -> u64 {
        if now_micros > self.last_micros {
            (now_micros - self.last_micros) as u64
        } else {
            1u64
        }
    }

    pub fn new(start_micros: u64) -> (p: Self)
        ensures
            p.last_micros == start_micros,
    {
        FramePacer { last_micros: start_micros }
    }

    /// Time since the previous tick. Strictly positive even when the clock
    /// has not advanced; the pacer's reference point moves only when the
    /// clock does.
    pub fn tick(&mut self, now_micros: u64) -> (delta: u64)
        ensures
            delta >= 1,
            delta == old(self).spec_delta(now_micros),
            now_micros > old(self).last_micros ==> final(self).last_micros == now_micros,
            now_micros <= old(self).last_micros ==> final(self).last_micros == old(self).last_micros,
    {
        if now_micros > self.last_micros {
            let delta: u64 = now_micros - self.last_micros;
            self.last_micros = now_micros;
            delta
        } else {
            1
        }
    }
}

} // verus!
