//! The per-scenario benchmark controller.
//!
//! One controller is created per running scenario and ticked once per
//! render frame, cooperatively and single-threaded.  It idles until a
//! trigger, then times a fixed number of frames and reports exactly once
//! per measurement.
//!
//! Triggering is mode-dependent.  In interactive mode the caller passes a
//! manual trigger signal (a key press).  In batch mode the controller
//! warms itself up: once wall time since its first tick exceeds the
//! warm-up window it counts consecutive frames, and past the frame
//! threshold it auto-triggers.  Either trigger is gated on the workload
//! scaler having reported stability (callers without a scaler pass the
//! gate as open), and both are deferred while the frame delta is zero,
//! the degenerate first tick on which no frame rate can be estimated —
//! so the controller never divides by a zero delta.
//!
//! On trigger the controller aims to measure about four seconds of work,
//! but at least thirty frames: the target frame count is
//! `max(30, ceil(4 s / delta))`.  A started measurement always runs to
//! its full target; there is no retry or abort path.  When the counter
//! reaches the target the controller emits one report carrying the
//! elapsed time and the frame count (always positive, so the caller's
//! per-frame average never divides by zero), and either returns to idle
//! (interactive) or asks the process to exit (batch).
//!
//! Time is carried as whole nanoseconds: `now_ns` from a monotonic
//! clock, `elapsed_ns` from the process clock, `delta_ns` as the last
//! frame's duration.  The controller itself never reads a clock.

use vstd::prelude::*;
use vstd::arithmetic::div_mod::lemma_div_is_ordered;
use vstd::arithmetic::div_mod::lemma_fundamental_div_mod_converse_div;

verus! {

/// Wall time that must pass after the first tick before batch warm-up
/// frames start counting.
pub const WARMUP_WALL_NS: u64 = 2_000_000_000;

/// Consecutive warm-up frames that must accumulate before a batch run
/// auto-triggers.
pub const WARMUP_FRAME_THRESHOLD: u32 = 20;

/// The measurement aims to span about this much wall time.
pub const MEASURE_SPAN_NS: u64 = 4_000_000_000;

/// A measurement never spans fewer frames than this.
pub const MIN_MEASURE_FRAMES: u32 = 30;

/// How a controller is triggered and what happens after it reports.
#[derive(Clone, Copy, PartialEq, Eq, Structural, Debug)]
pub enum BenchMode {
    /// Triggered manually; reports and returns to idle, ready for the
    /// next trigger.
    Interactive,
    /// Triggered by the warm-up; reports once and asks the process to
    /// exit.
    Batch,
}

/// An in-flight measurement.
#[derive(Clone, Copy, PartialEq, Eq, Debug)]
pub struct Measurement {
    /// Monotonic clock reading on the trigger tick.
    pub start_ns: u64,
    /// Fixed number of frames this measurement runs for.
    pub target_frame_count: u32,
    /// Frames ticked so far, including the trigger tick.
    pub frame_counter: u32,
}

/// Everything the controller reads on one tick.
#[derive(Clone, Copy, PartialEq, Eq, Debug)]
pub struct TickInput {
    /// Monotonic clock reading, used to time the measurement span.
    pub now_ns: u64,
    /// Process clock reading, used for the batch warm-up window.
    pub elapsed_ns: u64,
    /// Duration of the last frame; zero means "not yet measurable".
    pub delta_ns: u64,
    /// Manual trigger signal (interactive mode only).
    pub manual_trigger: bool,
    /// Whether the workload scaler has latched stable; callers without a
    /// scaler pass `true`.
    pub scaler_stable: bool,
}

/// The one report a measurement ends in.
#[derive(Clone, Copy, PartialEq, Eq, Debug)]
pub struct MeasurementReport {
    /// Monotonic time the measurement spanned.
    pub elapsed_ns: u64,
    /// Frames it spanned; the per-frame cost is `elapsed_ns / frames`.
    pub frames: u32,
    /// Whether the process should exit now (batch mode).
    pub exit: bool,
}

/// The per-scenario timing state machine.
#[derive(Clone, Copy, PartialEq, Eq, Debug)]
pub struct BenchmarkController {
    /// Trigger and exit behaviour.
    pub mode: BenchMode,
    /// Process clock reading on the first tick, once seen.
    pub first_tick_elapsed_ns: Option<u64>,
    /// Consecutive frames counted after the warm-up wall window passed.
    pub warm_up_frames: u32,
    /// The in-flight measurement, if one is running.
    pub measuring: Option<Measurement>,
}

/// `a - b`, floored at zero; clock readings are expected to be monotone,
/// and a reading that runs backwards yields an elapsed time of zero
/// rather than wrapping.
pub open spec fn spec_saturating_sub(a: u64, b: u64) -> u64 {
    if a >= b {
        (a - b) as u64
    } else {
        0
    }
}

/// The frame count a measurement triggered at frame delta `delta_ns`
/// runs for: enough frames to span about four seconds, but at least
/// thirty.
pub open spec fn spec_target_frame_count(delta_ns: u64) -> u32
    recommends
        delta_ns > 0,
{
    let ideal = (MEASURE_SPAN_NS + delta_ns - 1) / (delta_ns as int);
    if ideal < MIN_MEASURE_FRAMES {
        MIN_MEASURE_FRAMES
    } else {
        ideal as u32
    }
}

/// Whether this tick triggers a measurement: the controller is idle, the
/// frame delta is measurable, the scaler gate is open, and the
/// mode-specific trigger fired.
pub open spec fn spec_trigger_ready(c: BenchmarkController, inp: TickInput) -> bool {
    &&& c.measuring is None
    &&& inp.delta_ns > 0
    &&& inp.scaler_stable
    &&& match c.mode {
        BenchMode::Interactive => inp.manual_trigger,
        BenchMode::Batch => c.warm_up_frames > WARMUP_FRAME_THRESHOLD,
    }
}

/// The warm-up bookkeeping of one tick: the first tick records the
/// process clock, and in batch mode every tick after the wall window
/// counts one warm-up frame (the counter saturates just past the
/// threshold; only crossing it matters).
pub open spec fn spec_warmed(c: BenchmarkController, inp: TickInput) -> BenchmarkController {
    let first = match c.first_tick_elapsed_ns {
        Some(f) => f,
        None => inp.elapsed_ns,
    };
    let counts = c.mode is Batch && spec_saturating_sub(inp.elapsed_ns, first) > WARMUP_WALL_NS;
    let warm = if counts && c.warm_up_frames <= WARMUP_FRAME_THRESHOLD {
        (c.warm_up_frames + 1) as u32
    } else {
        c.warm_up_frames
    };
    BenchmarkController {
        first_tick_elapsed_ns: Some(first),
        warm_up_frames: warm,
        ..c
    }
}

/// The whole transition of one tick: warm-up bookkeeping, then a trigger
/// if one is ready, then one measuring step — the trigger tick is also
/// the measurement's first counted frame — and the report when the
/// counter reaches the target.
pub open spec fn spec_tick(c: BenchmarkController, inp: TickInput) -> (BenchmarkController,
    Option<MeasurementReport>) {
    let warmed = spec_warmed(c, inp);
    let armed = if spec_trigger_ready(warmed, inp) {
        BenchmarkController {
            measuring: Some(
                Measurement {
                    start_ns: inp.now_ns,
                    target_frame_count: spec_target_frame_count(inp.delta_ns),
                    frame_counter: 0,
                },
            ),
            ..warmed
        }
    } else {
        warmed
    };
    match armed.measuring {
        None => (armed, None),
        Some(m) => {
            if m.frame_counter == m.target_frame_count {
                let report = MeasurementReport {
                    elapsed_ns: spec_saturating_sub(inp.now_ns, m.start_ns),
                    frames: m.frame_counter,
                    exit: armed.mode is Batch,
                };
                (BenchmarkController { measuring: None, ..armed }, Some(report))
            } else {
                (
                    BenchmarkController {
                        measuring: Some(
                            Measurement { frame_counter: (m.frame_counter + 1) as u32, ..m },
                        ),
                        ..armed
                    },
                    None,
                )
            }
        },
    }
}

impl BenchmarkController {
    /// A measurement in flight never overruns its target, and the target
    /// is always at least the frame floor.
    pub open spec fn wf(self) -> bool {
        match self.measuring {
            Some(m) => m.frame_counter <= m.target_frame_count && m.target_frame_count
                >= MIN_MEASURE_FRAMES,
            None => true,
        }
    }

    /// An idle controller for one scenario run.
    pub fn new(mode: BenchMode) -> (r: Self)
        ensures
            r.mode == mode,
            r.first_tick_elapsed_ns is None,
            r.warm_up_frames == 0,
            r.measuring is None,
            r.wf(),
    {
        BenchmarkController {
            mode,
            first_tick_elapsed_ns: None,
            warm_up_frames: 0,
            measuring: None,
        }
    }

    /// One render tick.  Returns the measurement report if this tick
    /// completed one, and `None` otherwise.
    pub fn tick(&mut self, inp: TickInput) -> (r: Option<MeasurementReport>)
        requires
            old(self).wf(),
        ensures
            *final(self) == spec_tick(*old(self), inp).0,
            r == spec_tick(*old(self), inp).1,
            final(self).wf(),
            r matches Some(rep) ==> rep.frames >= MIN_MEASURE_FRAMES,
            r matches Some(rep) ==> (rep.exit <==> old(self).mode is Batch),
    {
        if self.first_tick_elapsed_ns.is_none() {
            self.first_tick_elapsed_ns = Some(inp.elapsed_ns);
        }
        let first = *self.first_tick_elapsed_ns.as_ref().unwrap();
        let since_first = if inp.elapsed_ns >= first {
            inp.elapsed_ns - first
        } else {
            0
        };
        if matches!(self.mode, BenchMode::Batch) && since_first > WARMUP_WALL_NS
            && self.warm_up_frames <= WARMUP_FRAME_THRESHOLD {
            self.warm_up_frames = self.warm_up_frames + 1;
        }
        if self.measuring.is_none() && inp.delta_ns > 0 && inp.scaler_stable && (match self.mode {
            BenchMode::Interactive => inp.manual_trigger,
            BenchMode::Batch => self.warm_up_frames > WARMUP_FRAME_THRESHOLD,
        }) {
            self.measuring = Some(
                Measurement {
                    start_ns: inp.now_ns,
                    target_frame_count: target_frame_count(inp.delta_ns),
                    frame_counter: 0,
                },
            );
        }
        match self.measuring {
            None => None,
            Some(m) => {
                if m.frame_counter == m.target_frame_count {
                    let report = MeasurementReport {
                        elapsed_ns: if inp.now_ns >= m.start_ns {
                            inp.now_ns - m.start_ns
                        } else {
                            0
                        },
                        frames: m.frame_counter,
                        exit: matches!(self.mode, BenchMode::Batch),
                    };
                    self.measuring = None;
                    Some(report)
                } else {
                    self.measuring = Some(
                        Measurement { frame_counter: m.frame_counter + 1, ..m },
                    );
                    None
                }
            },
        }
    }
}

/// A started measurement runs to its fixed target and nothing else: on
/// every tick it either counts exactly one more frame — keeping its
/// start and its target — or, precisely when the counter has reached
/// the target, ends in a report.  There is no retry, abort or restart
/// path, whatever the inputs do.
pub proof fn lemma_measurement_runs_to_target(c: BenchmarkController, inp: TickInput)
    requires
        c.wf(),
        c.measuring is Some,
    ensures
        (spec_tick(c, inp).1 is Some) == (c.measuring->Some_0.frame_counter
            == c.measuring->Some_0.target_frame_count),
        spec_tick(c, inp).1 is None ==> (spec_tick(c, inp).0.measuring matches Some(after)
            && after.start_ns == c.measuring->Some_0.start_ns && after.target_frame_count
            == c.measuring->Some_0.target_frame_count && after.frame_counter == c.measuring
            ->Some_0.frame_counter + 1),
{
}

/// The target frame count for a measurement triggered at frame delta
/// `delta_ns`.
fn target_frame_count(delta_ns: u64) -> (r: u32)
    requires
        delta_ns > 0,
    ensures
        r == spec_target_frame_count(delta_ns),
        r >= MIN_MEASURE_FRAMES,
{
    if delta_ns >= MEASURE_SPAN_NS {
        // One frame already spans the whole measurement window, so the
        // frame floor decides.
        proof {
            lemma_ceil_div_one(MEASURE_SPAN_NS as int, delta_ns as int);
        }
        MIN_MEASURE_FRAMES
    } else {
        let ideal_u64 = (MEASURE_SPAN_NS + (delta_ns - 1)) / delta_ns;
        proof {
            lemma_ceil_div_bound(MEASURE_SPAN_NS as int, delta_ns as int);
        }
        let ideal = ideal_u64 as u32;
        if ideal < MIN_MEASURE_FRAMES {
            MIN_MEASURE_FRAMES
        } else {
            ideal
        }
    }
}

/// For positive `a` and `d`, the ceiling quotient `(a + d - 1) / d` is at
/// most `a`.
proof fn lemma_ceil_div_bound(a: int, d: int)
    requires
        1 <= a,
        1 <= d,
    ensures
        (a + d - 1) / d <= a,
{
    assert(a <= a * d) by (nonlinear_arith)
        requires
            1 <= a,
            1 <= d,
    ;
    lemma_div_is_ordered(a + d - 1, a * d + d - 1, d);
    lemma_div_ad_plus_r(a, d);
}

/// For `d` at least `a`, the ceiling quotient `(a + d - 1) / d` is one.
proof fn lemma_ceil_div_one(a: int, d: int)
    requires
        1 <= a <= d,
    ensures
        (a + d - 1) / d == 1,
{
    lemma_fundamental_div_mod_converse_div(d, d, 1, 0);
    lemma_div_ad_plus_r(1, d);
    lemma_div_is_ordered(d, a + d - 1, d);
    lemma_div_is_ordered(a + d - 1, d + d - 1, d);
}

/// `(a * d + d - 1) / d == a` for positive `d`: the quotient of a
/// multiple of `d` plus a remainder below `d`.
proof fn lemma_div_ad_plus_r(a: int, d: int)
    requires
        1 <= d,
    ensures
        (a * d + d - 1) / d == a,
{
    lemma_fundamental_div_mod_converse_div(a * d + d - 1, d, a, d - 1);
}

} // verus!
