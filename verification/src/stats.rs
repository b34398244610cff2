//! Statistics gathered by the tick loop. All durations are held in
//! nanoseconds. The average tick duration is an exponentially smoothed value
//! with a 0.1% weight per tick, computed in fixed-point arithmetic, so a
//! single slow tick barely moves it. The slowest tick only ever grows within
//! a session.

use vstd::prelude::*;

verus! {

/// The smoothed average after one tick of `elapsed` nanoseconds: 99.9% of
/// the old average plus 0.1% of the new observation.
pub open spec fn smoothed(avg: u64, elapsed: u64) -> int {
    (avg * 999 + elapsed) / 1000
}

/// The larger of two durations.
pub open spec fn max_nanos(a: u64, b: u64) -> u64 {
    if a >= b {
        a
    } else {
        b
    }
}

/// The statistics snapshot shown to the user.
pub struct StatisticsData {
    /// The cadence the module asked for, in nanoseconds between ticks.
    pub tick_rate_nanos: u64,
    /// Exponentially smoothed average tick duration, in nanoseconds.
    pub avg_tick_nanos: u64,
    /// The slowest tick observed so far, in nanoseconds.
    pub slowest_tick_nanos: u64,
    /// Handles the module currently holds.
    pub handles: u64,
    /// Memory the module currently uses, in bytes.
    pub memory_usage: usize,
}

impl StatisticsData {
    pub fn new() -> (r: Self)
        ensures
            r.tick_rate_nanos == 0,
            r.avg_tick_nanos == 0,
            r.slowest_tick_nanos == 0,
            r.handles == 0,
            r.memory_usage == 0,
    {
        StatisticsData {
            tick_rate_nanos: 0,
            avg_tick_nanos: 0,
            slowest_tick_nanos: 0,
            handles: 0,
            memory_usage: 0,
        }
    }

    /// Folds one tick's observations into the snapshot: memory, handles and
    /// tick rate are replaced, the slowest tick only ever grows, and the
    /// average moves by its 0.1% smoothing step.
    pub fn record_tick(&mut self, elapsed_nanos: u64, memory_usage: usize, handles: u64, tick_rate_nanos: u64)
        ensures
            *final(self) == (StatisticsData {
                tick_rate_nanos,
                avg_tick_nanos: final(self).avg_tick_nanos,
                slowest_tick_nanos: max_nanos(old(self).slowest_tick_nanos, elapsed_nanos),
                handles,
                memory_usage,
            }),
            final(self).avg_tick_nanos == smoothed(old(self).avg_tick_nanos, elapsed_nanos),
            final(self).slowest_tick_nanos >= old(self).slowest_tick_nanos,
    {
        self.memory_usage = memory_usage;
        self.handles = handles;
        if elapsed_nanos > self.slowest_tick_nanos {
            self.slowest_tick_nanos = elapsed_nanos;
        }
        self.tick_rate_nanos = tick_rate_nanos;
        let wide: u128 = (self.avg_tick_nanos as u128) * 999 + (elapsed_nanos as u128);
        let new_avg: u128 = wide / 1000;
        proof {
            lemma_smoothed_bounded(self.avg_tick_nanos, elapsed_nanos);
        }
        self.avg_tick_nanos = new_avg as u64;
    }
}

/// The smoothing step never leaves the range of its inputs: the new average
/// is at most the larger of the old average and the new observation.
pub proof fn lemma_smoothed_bounded(avg: u64, elapsed: u64)
    ensures
        0 <= smoothed(avg, elapsed) <= max_nanos(avg, elapsed),
{
    let m = max_nanos(avg, elapsed) as int;
    assert(avg * 999 <= m * 999) by (nonlinear_arith)
        requires
            avg <= m,
            0 <= m,
    ;
    assert((avg * 999 + elapsed) / 1000 <= (m * 1000) / 1000) by (nonlinear_arith)
        requires
            avg * 999 <= m * 999,
            elapsed <= m,
            0 <= avg,
            0 <= elapsed,
            0 <= m,
    ;
}

} // verus!
