use line_racer::bench::{
    BenchMode, BenchmarkController, MeasurementReport, TickInput, MIN_MEASURE_FRAMES,
};

/// A simulated frame clock: every frame lasts `delta_ns`.
struct SimClock {
    now_ns: u64,
    delta_ns: u64,
}

impl SimClock {
    fn new(delta_ns: u64) -> Self {
        SimClock { now_ns: 0, delta_ns }
    }

    fn tick(&mut self) -> TickInput {
        self.now_ns += self.delta_ns;
        TickInput {
            now_ns: self.now_ns,
            elapsed_ns: self.now_ns,
            delta_ns: self.delta_ns,
            manual_trigger: false,
            scaler_stable: true,
        }
    }
}

fn run_batch_to_report(delta_ns: u64, max_ticks: u32) -> (MeasurementReport, u32) {
    let mut controller = BenchmarkController::new(BenchMode::Batch);
    let mut clock = SimClock::new(delta_ns);
    for n in 1..=max_ticks {
        if let Some(report) = controller.tick(clock.tick()) {
            return (report, n);
        }
    }
    panic!("no report after {max_ticks} ticks");
}

#[test]
fn target_frame_count_follows_ceiling_formula() {
    // At 16 ms per frame the controller aims at ceil(4 s / 16 ms) = 250
    // frames; the report spans exactly that many.
    let (report, _) = run_batch_to_report(16_000_000, 10_000);
    assert_eq!(report.frames, 250);
}

#[test]
fn target_frame_count_rounds_up() {
    // ceil(4e9 / 30_000_000) = 134 (133.33.. rounded up).
    let (report, _) = run_batch_to_report(30_000_000, 10_000);
    assert_eq!(report.frames, 134);
}

#[test]
fn target_frame_count_has_frame_floor() {
    // A slow backend at 200 ms per frame would span only 20 frames in
    // four seconds; the floor of 30 frames wins.
    let (report, _) = run_batch_to_report(200_000_000, 10_000);
    assert_eq!(report.frames, 30);
    assert!(report.frames >= MIN_MEASURE_FRAMES);
}

#[test]
fn reported_elapsed_matches_frames_times_delta() {
    // With a constant simulated delta, the measured span is exactly the
    // frame count times the delta, so the per-frame cost comes back out.
    let delta: u64 = 16_000_000;
    let (report, _) = run_batch_to_report(delta, 10_000);
    assert_eq!(report.elapsed_ns, report.frames as u64 * delta);
    let frame_ms = report.elapsed_ns as f32 / 1.0e6 / report.frames as f32;
    assert!((frame_ms - 16.0).abs() < 1.0e-3);
}

#[test]
fn batch_report_asks_for_exit() {
    let (report, _) = run_batch_to_report(16_000_000, 10_000);
    assert!(report.exit);
}

#[test]
fn batch_warmup_spans_two_seconds_then_twenty_frames() {
    // At 16 ms per frame the wall window passes during tick 126 (2.016 s);
    // warm-up frames count from then on and the trigger needs more than
    // 20 of them, so measuring starts well after 2 s and the whole run
    // spans warm-up plus the 250 measured frames.
    let (report, ticks) = run_batch_to_report(16_000_000, 10_000);
    assert_eq!(report.frames, 250);
    assert!(ticks > 125 + 21 + 250);
    assert!(ticks < 125 + 21 + 250 + 10);
}

#[test]
fn enormous_delta_still_measures_thirty_frames() {
    // Even a frame delta longer than the whole measurement window
    // cannot push the target below the floor or overflow the formula.
    let mut controller = BenchmarkController::new(BenchMode::Interactive);
    let mut inp = TickInput {
        now_ns: 1,
        elapsed_ns: 1,
        delta_ns: u64::MAX,
        manual_trigger: true,
        scaler_stable: true,
    };
    assert!(controller.tick(inp).is_none());
    inp.manual_trigger = false;
    let mut report = None;
    for n in 0..40u64 {
        inp.now_ns = 2 + n;
        inp.elapsed_ns = 2 + n;
        report = controller.tick(inp);
        if report.is_some() {
            break;
        }
    }
    assert_eq!(report.expect("report").frames, 30);
}

#[test]
fn zero_delta_defers_trigger() {
    // A zero frame delta means "not yet measurable": the trigger is
    // skipped rather than dividing by zero, and the controller stays
    // idle however long zero deltas continue.
    let mut controller = BenchmarkController::new(BenchMode::Interactive);
    for n in 1..=100u64 {
        let out = controller.tick(TickInput {
            now_ns: n * 1_000_000,
            elapsed_ns: n * 1_000_000,
            delta_ns: 0,
            manual_trigger: true,
            scaler_stable: true,
        });
        assert!(out.is_none());
    }
    // The first measurable delta lets the trigger through.
    let out = controller.tick(TickInput {
        now_ns: 101_000_000,
        elapsed_ns: 101_000_000,
        delta_ns: 16_000_000,
        manual_trigger: true,
        scaler_stable: true,
    });
    assert!(out.is_none());
}

#[test]
fn interactive_trigger_is_manual_and_repeatable() {
    let delta: u64 = 100_000_000;
    let mut controller = BenchmarkController::new(BenchMode::Interactive);
    let mut clock = SimClock::new(delta);
    let mut reports = Vec::new();
    for round in 0..2 {
        // Idle until the manual trigger: nothing reported.
        for _ in 0..10 {
            assert!(controller.tick(clock.tick()).is_none());
        }
        let mut inp = clock.tick();
        inp.manual_trigger = true;
        assert!(controller.tick(inp).is_none());
        // ceil(4e9 / 1e8) = 40 frames; the trigger tick was the first.
        let mut report = None;
        for _ in 0..40 {
            report = controller.tick(clock.tick());
            if report.is_some() {
                break;
            }
        }
        let report = report.expect("measurement must report");
        assert_eq!(report.frames, 40);
        assert!(!report.exit, "interactive runs keep going after round {round}");
        reports.push(report);
    }
    assert_eq!(reports.len(), 2);
}

#[test]
fn trigger_waits_for_scaler_stability() {
    let mut controller = BenchmarkController::new(BenchMode::Interactive);
    let mut clock = SimClock::new(16_000_000);
    for _ in 0..50 {
        let mut inp = clock.tick();
        inp.manual_trigger = true;
        inp.scaler_stable = false;
        assert!(controller.tick(inp).is_none());
    }
    // Once the scaler is stable the same trigger starts a measurement,
    // which then runs its 250 frames to one report.
    let mut inp = clock.tick();
    inp.manual_trigger = true;
    assert!(controller.tick(inp).is_none());
    let mut seen = None;
    for _ in 0..250 {
        seen = controller.tick(clock.tick());
        if seen.is_some() {
            break;
        }
    }
    assert_eq!(seen.expect("report").frames, 250);
}
