//! Tick deadline arithmetic. The loop keeps an absolute deadline and adds
//! the cadence to the previous deadline, not to "now", so short-term jitter
//! does not accumulate drift. When a tick misses its deadline by more than
//! one cadence (the machine was suspended), the deadline resets to "now"
//! instead of scheduling a burst of catch-up ticks. Times are nanoseconds on
//! a monotonic clock.

use vstd::prelude::*;

verus! {

/// The cadence used while no module is loaded: 100 milliseconds, ten ticks a
/// second.
pub const FALLBACK_CADENCE_NANOS: u64 = 100_000_000;

/// The deadline after one tick: one cadence past the previous deadline, or
/// "now" when that moment has already passed.
pub open spec fn spec_next_deadline(prev: int, cadence: int, now: int) -> int {
    if now <= prev + cadence {
        prev + cadence
    } else {
        now
    }
}

/// Computes the next absolute deadline from the previous one, the cadence,
/// and the current time.
pub fn advance_deadline(prev: u64, cadence: u64, now: u64) -> (r: u64)
    requires
        prev + cadence <= u64::MAX,
    ensures
        r == spec_next_deadline(prev as int, cadence as int, now as int),
        now <= prev + cadence ==> r == prev + cadence,
        now > prev + cadence ==> r == now,
        r >= now,
{
    let target = prev + cadence;
    if now <= target {
        target
    } else {
        now
    }
}

/// How long to sleep until the deadline; zero when it has already passed.
pub fn sleep_nanos(deadline: u64, now: u64) -> (r: u64)
    ensures
        r == if now <= deadline {
            deadline - now
        } else {
            0
        },
{
    if now <= deadline {
        deadline - now
    } else {
        0
    }
}

/// The deadline after a whole run of ticks, where `nows[i]` is the time at
/// which tick `i` finished its work.
pub open spec fn run_deadlines(d0: int, cadence: int, nows: Seq<int>) -> int
    decreases nows.len(),
{
    if nows.len() == 0 {
        d0
    } else {
        spec_next_deadline(run_deadlines(d0, cadence, nows.drop_last()), cadence, nows.last())
    }
}

/// Deadline scheduling does not drift: when every tick finishes within one
/// cadence of its deadline, consecutive deadlines are spaced by exactly the
/// cadence, so after `n` ticks the deadline is the start plus `n` cadences —
/// however many ticks have run.
pub proof fn lemma_no_drift(d0: int, cadence: int, nows: Seq<int>)
    requires
        cadence >= 0,
        forall|i: int|
            0 <= i < nows.len() ==> #[trigger] nows[i] <= run_deadlines(
                d0,
                cadence,
                nows.take(i),
            ) + cadence,
    ensures
        run_deadlines(d0, cadence, nows) == d0 + nows.len() * cadence,
    decreases nows.len(),
{
    if nows.len() == 0 {
        assert(nows.len() * cadence == 0);
    } else {
        let n = nows.len() as int;
        let prefix = nows.drop_last();
        assert forall|i: int|
            0 <= i < prefix.len() implies #[trigger] prefix[i] <= run_deadlines(
            d0,
            cadence,
            prefix.take(i),
        ) + cadence by {
            assert(prefix.take(i) =~= nows.take(i));
            assert(nows[i] <= run_deadlines(d0, cadence, nows.take(i)) + cadence);
        }
        lemma_no_drift(d0, cadence, prefix);
        assert(nows.take(n - 1) =~= prefix);
        assert(nows[n - 1] <= run_deadlines(d0, cadence, prefix) + cadence);
        assert(run_deadlines(d0, cadence, nows) == run_deadlines(d0, cadence, prefix) + cadence);
        assert((n - 1) * cadence + cadence == n * cadence) by (nonlinear_arith);
    }
}

/// A tick that overslept by more than one cadence does not trigger a burst
/// of catch-up ticks: the next deadline is the moment the tick ended.
pub proof fn lemma_suspend_resets(d0: int, cadence: int, nows: Seq<int>)
    requires
        nows.len() > 0,
        nows.last() > run_deadlines(d0, cadence, nows.drop_last()) + cadence,
    ensures
        run_deadlines(d0, cadence, nows) == nows.last(),
{
}

} // verus!
