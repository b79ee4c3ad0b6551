//! The frame pacer: holds the consumer to a fixed target frame interval with
//! a deficit-accumulating policy. Elapsed time is added to a running deficit;
//! an iteration that is ahead of schedule sleeps the remainder and clears the
//! deficit, one that is behind sleeps nothing and carries the excess forward,
//! so the loop catches up after a slow frame instead of drifting.
use vstd::prelude::*;

verus! {

/// The deficit after one iteration that took `elapsed` on top of a carried
/// deficit `delay`: cleared when the iteration was ahead of the target,
/// otherwise the amount by which it overran.
pub open spec fn next_delay(target: int, delay: int, elapsed: int) -> int {
    if delay + elapsed < target {
        0
    } else {
        delay + elapsed - target
    }
}

/// How long that iteration sleeps: the remainder of the target interval when
/// ahead of schedule, nothing when behind.
pub open spec fn sleep_amount(target: int, delay: int, elapsed: int) -> int {
    if delay + elapsed < target {
        target - (delay + elapsed)
    } else {
        0
    }
}

/// The deficit carried after pacing a whole sequence of per-frame processing
/// times, starting from a cleared deficit.
pub open spec fn delay_after(target: int, elapsed: Seq<int>) -> int
    decreases elapsed.len(),
{
    if elapsed.len() == 0 {
        0
    } else {
        next_delay(target, delay_after(target, elapsed.drop_last()), elapsed.last())
    }
}

/// Total wall-clock time spent pacing that sequence: each frame's processing
/// time plus the sleep the pacer inserted after it.
pub open spec fn wall_time(target: int, elapsed: Seq<int>) -> int
    decreases elapsed.len(),
{
    if elapsed.len() == 0 {
        0
    } else {
        let d = delay_after(target, elapsed.drop_last());
        wall_time(target, elapsed.drop_last()) + elapsed.last() + sleep_amount(
            target,
            d,
            elapsed.last(),
        )
    }
}

/// Pacing is exact up to the carried deficit: after any sequence of per-frame
/// processing times, cumulative wall-clock time equals the number of frames
/// times the target interval, plus exactly the final deficit — the pacer
/// never adds or loses time beyond the deficit it still owes.
pub proof fn lemma_pacing_identity(target: int, elapsed: Seq<int>)
    requires
        target > 0,
        forall|i: int| 0 <= i < elapsed.len() ==> #[trigger] elapsed[i] >= 0,
    ensures
        wall_time(target, elapsed) == elapsed.len() * target + delay_after(target, elapsed),
    decreases elapsed.len(),
{
    if elapsed.len() > 0 {
        lemma_pacing_identity(target, elapsed.drop_last());
        assert((elapsed.len() - 1) * target + target == elapsed.len() * target) by (nonlinear_arith);
    }
}

/// Pacing convergence: when every frame's processing time stays within the
/// target interval, the deficit never accumulates and cumulative wall-clock
/// time is exactly the number of frames times the target interval.
pub proof fn lemma_pacing_convergence(target: int, elapsed: Seq<int>)
    requires
        target > 0,
        forall|i: int| 0 <= i < elapsed.len() ==> 0 <= #[trigger] elapsed[i] <= target,
    ensures
        delay_after(target, elapsed) == 0,
        wall_time(target, elapsed) == elapsed.len() * target,
    decreases elapsed.len(),
{
    if elapsed.len() > 0 {
        lemma_pacing_convergence(target, elapsed.drop_last());
    }
    lemma_pacing_identity(target, elapsed);
}

/// Recovery after a slow stretch: the moment one frame finishes early enough
/// to absorb the carried deficit, the deficit resets to zero — lateness never
/// persists past the first sufficiently fast frame.
pub proof fn lemma_pacing_recovery(target: int, elapsed: Seq<int>, e: int)
    requires
        target > 0,
        e >= 0,
        delay_after(target, elapsed) + e < target,
    ensures
        delay_after(target, elapsed.push(e)) == 0,
{
    assert(elapsed.push(e).drop_last() =~= elapsed);
    assert(elapsed.push(e).last() == e);
}

/// Pacer state: the fixed target interval and the running deficit, both in
/// milliseconds. Not shared across threads; the consumer owns it.
pub struct Pacer {
    pub target_ms: u64,
    pub delay_ms: u64,
}

impl Pacer {
    pub open spec fn wf(self) -> bool {
        self.target_ms > 0
    }

    /// A pacer for the given frame rate: the target interval is
    /// `1000 / target_fps` milliseconds, the deficit starts cleared.
    pub fn new(target_fps: u64) -> (p: Pacer)
        requires
            0 < target_fps <= 1000,
        ensures
            p.wf(),
            p.target_ms == 1000 as int / target_fps as int,
            p.delay_ms == 0,
    {
        proof {
            let f = target_fps as int;
            assert(1000int / f >= 1) by (nonlinear_arith)
                requires
                    0 < f && f <= 1000,
            ;
        }
        Pacer { target_ms: 1000 / target_fps, delay_ms: 0 }
    }

    /// One pacing decision: add this iteration's elapsed time to the deficit
    /// and return how long to sleep, exactly as the deficit policy says.
    pub fn step(&mut self, elapsed_ms: u64) -> (sleep_ms: u64)
        requires
            old(self).wf(),
            old(self).delay_ms + elapsed_ms <= u64::MAX,
        ensures
            final(self).wf(),
            final(self).target_ms == old(self).target_ms,
            sleep_ms == sleep_amount(
                old(self).target_ms as int,
                old(self).delay_ms as int,
                elapsed_ms as int,
            ),
            final(self).delay_ms == next_delay(
                old(self).target_ms as int,
                old(self).delay_ms as int,
                elapsed_ms as int,
            ),
    {
        let acc = self.delay_ms + elapsed_ms;
        if acc < self.target_ms {
            self.delay_ms = 0;
            self.target_ms - acc
        } else {
            self.delay_ms = acc - self.target_ms;
            0
        }
    }
}

} // verus!
