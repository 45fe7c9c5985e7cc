//! The workload auto-scaler.
//!
//! When enabled for a run, the scaler searches for the largest working
//! set a backend can sustain under a fixed per-frame budget.  It starts
//! the workload at fifty thousand lines and is ticked once per frame with
//! the last frame's duration.  After every size change it sits out a
//! settle window of twenty frames so the backend's costs can settle; on
//! each tick after the window it folds the frame delta into a running
//! average, `smoothed = (smoothed + delta) / 2`.  While the average stays
//! under the budget and the ceiling has not been reached, the workload
//! doubles — the caller discards and regenerates the whole working set —
//! and the settle window and stability counter restart.  Otherwise the
//! tick counts one stable sample, and one hundred consecutive stable
//! samples latch the scaler stable: a one-way latch that never reverts
//! and stops all further scaling for the rest of the run, however the
//! deltas develop afterwards.
//!
//! The workload never shrinks, and it never exceeds the ceiling chosen
//! at construction; the ceiling keeps the doubling from growing the
//! working set without bound.  Time is carried as whole nanoseconds.

use vstd::prelude::*;

verus! {

/// The workload size a scaled run starts at.
pub const INITIAL_WORKLOAD_SIZE: u32 = 50_000;

/// Frames sat out after every size change before measuring resumes.
pub const SETTLE_FRAMES: u32 = 20;

/// Consecutive unchanged-size samples after which the scaler latches
/// stable.
pub const STABLE_SAMPLE_TARGET: u32 = 100;

/// The per-frame budget: the workload doubles while the smoothed frame
/// delta stays under eight milliseconds.
pub const FRAME_BUDGET_NS: u64 = 8_000_000;

/// The workload-size controller of one run.
#[derive(Clone, Copy, PartialEq, Eq, Debug)]
pub struct AutoScaler {
    /// Current size of the working set, in lines.
    pub workload_size: u32,
    /// Consecutive samples seen without a size change.
    pub stability_count: u32,
    /// Frames left to sit out before measuring resumes.
    pub settle_frames_left: u32,
    /// Running average of the frame delta.
    pub smoothed_delta_ns: u64,
    /// The one-way stability latch.
    pub is_stable: bool,
    /// Ceiling the workload never grows past.
    pub max_workload_size: u32,
}

/// One smoothing step of the running average.
pub open spec fn spec_smoothed(prev_ns: u64, delta_ns: u64) -> u64 {
    ((prev_ns + delta_ns) / 2) as u64
}

/// The workload size after one doubling, held to the ceiling.
pub open spec fn spec_grown_size(size: u32, max_size: u32) -> u32 {
    if size <= max_size / 2 {
        (2 * size) as u32
    } else {
        max_size
    }
}

/// The whole transition of one tick: a latched scaler never changes; a
/// settling scaler counts its window down; otherwise the tick smooths
/// the delta and either doubles the workload (restarting the window and
/// the stability counter) or counts one stable sample, latching stable
/// at the hundredth.
pub open spec fn spec_tick(pre: AutoScaler, delta_ns: u64) -> (AutoScaler, Option<u32>) {
    if pre.is_stable {
        (pre, None)
    } else if pre.settle_frames_left > 0 {
        (
            AutoScaler { settle_frames_left: (pre.settle_frames_left - 1) as u32, ..pre },
            None,
        )
    } else {
        let smoothed = spec_smoothed(pre.smoothed_delta_ns, delta_ns);
        if smoothed < FRAME_BUDGET_NS && pre.workload_size < pre.max_workload_size {
            let grown = spec_grown_size(pre.workload_size, pre.max_workload_size);
            (
                AutoScaler {
                    workload_size: grown,
                    stability_count: 0,
                    settle_frames_left: SETTLE_FRAMES,
                    smoothed_delta_ns: smoothed,
                    ..pre
                },
                Some(grown),
            )
        } else {
            let samples = (pre.stability_count + 1) as u32;
            (
                AutoScaler {
                    stability_count: samples,
                    smoothed_delta_ns: smoothed,
                    is_stable: samples >= STABLE_SAMPLE_TARGET,
                    ..pre
                },
                None,
            )
        }
    }
}

impl AutoScaler {
    /// The workload lies between one line and the ceiling, and the
    /// stability counter has not overrun its target while the latch is
    /// open.
    pub open spec fn wf(self) -> bool {
        &&& 1 <= self.workload_size <= self.max_workload_size
        &&& !self.is_stable ==> self.stability_count < STABLE_SAMPLE_TARGET
    }

    /// A scaler at the starting workload, settling, with the given
    /// growth ceiling.
    pub fn new(max_workload_size: u32) -> (r: Self)
        requires
            max_workload_size >= INITIAL_WORKLOAD_SIZE,
        ensures
            r.workload_size == INITIAL_WORKLOAD_SIZE,
            r.stability_count == 0,
            r.settle_frames_left == SETTLE_FRAMES,
            r.smoothed_delta_ns == 0,
            !r.is_stable,
            r.max_workload_size == max_workload_size,
            r.wf(),
    {
        AutoScaler {
            workload_size: INITIAL_WORKLOAD_SIZE,
            stability_count: 0,
            settle_frames_left: SETTLE_FRAMES,
            smoothed_delta_ns: 0,
            is_stable: false,
            max_workload_size,
        }
    }

    /// One frame tick.  Returns the new workload size when the working
    /// set must be discarded and regenerated, and `None` otherwise.
    pub fn tick(&mut self, delta_ns: u64) -> (resize: Option<u32>)
        requires
            old(self).wf(),
        ensures
            *final(self) == spec_tick(*old(self), delta_ns).0,
            resize == spec_tick(*old(self), delta_ns).1,
            final(self).wf(),
            old(self).is_stable ==> *final(self) == *old(self) && resize is None,
            final(self).is_stable ==> old(self).is_stable || old(self).stability_count + 1
                == STABLE_SAMPLE_TARGET,
            final(self).workload_size >= old(self).workload_size,
            resize matches Some(size) ==> size == final(self).workload_size
                > old(self).workload_size,
    {
        if self.is_stable {
            return None;
        }
        if self.settle_frames_left > 0 {
            self.settle_frames_left = self.settle_frames_left - 1;
            return None;
        }
        let smoothed = (((self.smoothed_delta_ns as u128) + (delta_ns as u128)) / 2) as u64;
        assert(smoothed == spec_smoothed(self.smoothed_delta_ns, delta_ns));
        self.smoothed_delta_ns = smoothed;
        if smoothed < FRAME_BUDGET_NS && self.workload_size < self.max_workload_size {
            let grown = if self.workload_size <= self.max_workload_size / 2 {
                2 * self.workload_size
            } else {
                self.max_workload_size
            };
            self.workload_size = grown;
            self.stability_count = 0;
            self.settle_frames_left = SETTLE_FRAMES;
            Some(grown)
        } else {
            self.stability_count = self.stability_count + 1;
            if self.stability_count >= STABLE_SAMPLE_TARGET {
                self.is_stable = true;
            }
            None
        }
    }
}

/// The state after feeding a sequence of frame deltas, one tick each.
pub open spec fn spec_run(pre: AutoScaler, deltas: Seq<u64>) -> AutoScaler
    decreases deltas.len(),
{
    if deltas.len() == 0 {
        pre
    } else {
        spec_run(spec_tick(pre, deltas[0]).0, deltas.drop_first())
    }
}

/// The stability latch is one-way: once a scaler in a tick sequence is
/// stable, it is stable at every later point, whatever deltas follow.
pub proof fn lemma_stability_latch(pre: AutoScaler, deltas: Seq<u64>)
    requires
        pre.is_stable,
    ensures
        spec_run(pre, deltas) == pre,
    decreases deltas.len(),
{
    if deltas.len() > 0 {
        lemma_stability_latch(spec_tick(pre, deltas[0]).0, deltas.drop_first());
    }
}

/// Latching: a measuring scaler whose budget is exceeded on every tick
/// counts one stable sample per tick, and the tick that brings the run
/// of consecutive stable samples to its target latches the scaler
/// stable.
pub proof fn lemma_stable_samples_latch(pre: AutoScaler, deltas: Seq<u64>)
    requires
        !pre.is_stable,
        pre.settle_frames_left == 0,
        1 <= deltas.len(),
        pre.stability_count + deltas.len() == STABLE_SAMPLE_TARGET,
        forall|k: int| 0 <= k < deltas.len() ==> deltas[k] >= 2 * FRAME_BUDGET_NS,
    ensures
        spec_run(pre, deltas).is_stable,
    decreases deltas.len(),
{
    let stepped = spec_tick(pre, deltas[0]).0;
    assert(spec_smoothed(pre.smoothed_delta_ns, deltas[0]) >= FRAME_BUDGET_NS);
    assert(spec_run(pre, deltas) == spec_run(stepped, deltas.drop_first()));
    if deltas.len() > 1 {
        lemma_stable_samples_latch(stepped, deltas.drop_first());
    } else {
        assert(stepped.stability_count == STABLE_SAMPLE_TARGET);
        assert(spec_run(stepped, deltas.drop_first()) == stepped);
    }
}

/// One whole scale-up window: a scaler that has just resized (or just
/// started), whose smoothed delta is under budget and whose workload is
/// below the ceiling, doubles the workload on the first measuring tick
/// after its settle window, provided every delta fed in stays under the
/// budget — and it comes out settling again with its average under
/// budget, ready for the next window.
pub proof fn lemma_scale_up_window(pre: AutoScaler, deltas: Seq<u64>)
    requires
        !pre.is_stable,
        pre.smoothed_delta_ns < FRAME_BUDGET_NS,
        1 <= pre.workload_size < pre.max_workload_size,
        deltas.len() == pre.settle_frames_left + 1,
        forall|k: int| 0 <= k < deltas.len() ==> deltas[k] < FRAME_BUDGET_NS,
    ensures
        spec_run(pre, deltas).workload_size == spec_grown_size(
            pre.workload_size,
            pre.max_workload_size,
        ),
        spec_run(pre, deltas).workload_size > pre.workload_size,
        spec_run(pre, deltas).settle_frames_left == SETTLE_FRAMES,
        spec_run(pre, deltas).smoothed_delta_ns < FRAME_BUDGET_NS,
        !spec_run(pre, deltas).is_stable,
        spec_run(pre, deltas).max_workload_size == pre.max_workload_size,
    decreases deltas.len(),
{
    if pre.settle_frames_left > 0 {
        let settled = spec_tick(pre, deltas[0]).0;
        lemma_scale_up_window(settled, deltas.drop_first());
    } else {
        let stepped = spec_tick(pre, deltas[0]).0;
        assert(spec_smoothed(pre.smoothed_delta_ns, deltas[0]) < FRAME_BUDGET_NS);
        assert(spec_run(stepped, deltas.drop_first()) == stepped);
    }
}

} // verus!
