//! Run configuration and the scenario list.
//!
//! A run is configured from its command-line arguments: boolean flags in
//! any order, exactly one scenario flag naming the line-generator and
//! renderer pairing to exercise, and an optional first positional
//! argument echoed as the scenario's display name in reports.  A missing
//! or unrecognized scenario flag is a configuration error reported
//! before the tick loop starts, never a silent run that renders nothing.
//!
//! The orchestrating process (`--benchmark`) runs every scenario in the
//! fixed list order as an isolated child run, passing the shared flags
//! through; [`child_args`] builds each child's argument list and
//! [`benchmark_scenarios`] fixes the order.

use vstd::prelude::*;
use vstd::string::StrSliceExecFns;

verus! {

/// One named pairing of a line-generation mode and a rendering backend.
#[derive(Clone, Copy, PartialEq, Eq, Structural, Debug)]
pub enum Scenario {
    BevyLinesExampleRetained,
    BevyPlane3dRetained,
    BevyPlane3dRetainedCombined,
    GizmosImmediate,
    GizmosImmediateNan,
    GizmosImmediateContinuousPolyline,
    BevyVectorShapesRetained,
    BevyVectorShapesImmediate,
    BevyPolylineRetained,
    BevyPolylineRetainedNan,
    BevyPolylineRetainedContinuousPolyline,
}

/// The shape of working set a scenario's backend consumes.
#[derive(Clone, Copy, PartialEq, Eq, Structural, Debug)]
pub enum WorkloadForm {
    /// A list of independent segments.
    Segments,
    /// One vertex path whose consecutive vertices connect.
    ContinuousPath,
    /// One vertex path carrying independent segments split by the NaN
    /// sentinel.
    NanDelimitedPath,
}

/// A parsed run configuration.
#[derive(PartialEq, Eq, Debug)]
pub struct RunConfig {
    /// Run the orchestrator over the whole scenario list.
    pub orchestrate: bool,
    /// This process is a batch child: auto-trigger, report once, exit.
    pub batch_child: bool,
    /// Keep diagnostics even as a batch child.
    pub verbose: bool,
    /// Scale the workload automatically instead of the fixed size.
    pub auto_workload: bool,
    /// The selected scenario, if one was flagged.
    pub scenario: Option<Scenario>,
    /// The display name echoed in reports.
    pub display_name: Option<String>,
}

/// Why a run configuration was rejected.
#[derive(Clone, Copy, PartialEq, Eq, Structural, Debug)]
pub enum ConfigError {
    /// An argument looked like a flag but matches none.
    UnrecognizedFlag,
    /// No scenario flag was given and the run is not an orchestration.
    MissingScenario,
    /// Two different scenario flags were given.
    ConflictingScenarios,
}

/// The flag that selects a scenario.
pub open spec fn spec_scenario_flag(s: Scenario) -> Seq<char> {
    match s {
        Scenario::BevyLinesExampleRetained => "--bevy_lines_example_retained"@,
        Scenario::BevyPlane3dRetained => "--bevy_plane_3d_retained"@,
        Scenario::BevyPlane3dRetainedCombined => "--bevy_plane_3d_retained_combined"@,
        Scenario::GizmosImmediate => "--gizmos_immediate"@,
        Scenario::GizmosImmediateNan => "--gizmos_immediate_nan"@,
        Scenario::GizmosImmediateContinuousPolyline => "--gizmos_immediate_continuous_polyline"@,
        Scenario::BevyVectorShapesRetained => "--bevy_vector_shapes_retained"@,
        Scenario::BevyVectorShapesImmediate => "--bevy_vector_shapes_immediate"@,
        Scenario::BevyPolylineRetained => "--bevy_polyline_retained"@,
        Scenario::BevyPolylineRetainedNan => "--bevy_polyline_retained_nan"@,
        Scenario::BevyPolylineRetainedContinuousPolyline
            => "--bevy_polyline_retained_continuous_polyline"@,
    }
}

/// The flag that starts the orchestrator.
pub open spec fn spec_benchmark_flag() -> Seq<char> {
    "--benchmark"@
}

/// The flag that marks a batch child process.
pub open spec fn spec_auto_bench_flag() -> Seq<char> {
    "--auto_bench"@
}

/// The flag that keeps diagnostics on.
pub open spec fn spec_verbose_flag() -> Seq<char> {
    "--verbose"@
}

/// The flag that enables automatic workload scaling.
pub open spec fn spec_auto_workload_flag() -> Seq<char> {
    "--auto_count"@
}

/// What the flag classifier returns: the scenario whose flag the
/// argument is, if any.
pub open spec fn spec_flag_scenario(v: Seq<char>) -> Option<Scenario> {
    if v == spec_scenario_flag(Scenario::BevyLinesExampleRetained) {
        Some(Scenario::BevyLinesExampleRetained)
    } else if v == spec_scenario_flag(Scenario::BevyPlane3dRetained) {
        Some(Scenario::BevyPlane3dRetained)
    } else if v == spec_scenario_flag(Scenario::BevyPlane3dRetainedCombined) {
        Some(Scenario::BevyPlane3dRetainedCombined)
    } else if v == spec_scenario_flag(Scenario::GizmosImmediate) {
        Some(Scenario::GizmosImmediate)
    } else if v == spec_scenario_flag(Scenario::GizmosImmediateNan) {
        Some(Scenario::GizmosImmediateNan)
    } else if v == spec_scenario_flag(Scenario::GizmosImmediateContinuousPolyline) {
        Some(Scenario::GizmosImmediateContinuousPolyline)
    } else if v == spec_scenario_flag(Scenario::BevyVectorShapesRetained) {
        Some(Scenario::BevyVectorShapesRetained)
    } else if v == spec_scenario_flag(Scenario::BevyVectorShapesImmediate) {
        Some(Scenario::BevyVectorShapesImmediate)
    } else if v == spec_scenario_flag(Scenario::BevyPolylineRetained) {
        Some(Scenario::BevyPolylineRetained)
    } else if v == spec_scenario_flag(Scenario::BevyPolylineRetainedNan) {
        Some(Scenario::BevyPolylineRetainedNan)
    } else if v == spec_scenario_flag(Scenario::BevyPolylineRetainedContinuousPolyline) {
        Some(Scenario::BevyPolylineRetainedContinuousPolyline)
    } else {
        None
    }
}

/// Whether an argument looks like a flag.
pub open spec fn spec_is_flag(v: Seq<char>) -> bool {
    v.len() >= 2 && v[0] == '-' && v[1] == '-'
}

/// Whether a flag is one this program understands.
pub open spec fn spec_known_flag(v: Seq<char>) -> bool {
    ||| v == spec_benchmark_flag()
    ||| v == spec_auto_bench_flag()
    ||| v == spec_verbose_flag()
    ||| v == spec_auto_workload_flag()
    ||| spec_flag_scenario(v) is Some
}

/// Build an owned copy of a literal.
fn make_string(text: &str) -> (r: String)
    ensures
        r@ == text@,
{
    let r = text.to_string();
    proof {
        broadcast use vstd::string::to_string_from_display_ensures_for_str;
    }
    r
}

/// Whether an argument equals a literal.
fn string_is(s: &String, text: &str) -> (r: bool)
    ensures
        r == (s@ == text@),
{
    let owned = make_string(text);
    s.eq(&owned)
}

/// The flag that selects a scenario, as an owned argument.
pub fn scenario_flag(s: Scenario) -> (r: String)
    ensures
        r@ == spec_scenario_flag(s),
{
    match s {
        Scenario::BevyLinesExampleRetained => make_string("--bevy_lines_example_retained"),
        Scenario::BevyPlane3dRetained => make_string("--bevy_plane_3d_retained"),
        Scenario::BevyPlane3dRetainedCombined => make_string("--bevy_plane_3d_retained_combined"),
        Scenario::GizmosImmediate => make_string("--gizmos_immediate"),
        Scenario::GizmosImmediateNan => make_string("--gizmos_immediate_nan"),
        Scenario::GizmosImmediateContinuousPolyline => make_string(
            "--gizmos_immediate_continuous_polyline",
        ),
        Scenario::BevyVectorShapesRetained => make_string("--bevy_vector_shapes_retained"),
        Scenario::BevyVectorShapesImmediate => make_string("--bevy_vector_shapes_immediate"),
        Scenario::BevyPolylineRetained => make_string("--bevy_polyline_retained"),
        Scenario::BevyPolylineRetainedNan => make_string("--bevy_polyline_retained_nan"),
        Scenario::BevyPolylineRetainedContinuousPolyline => make_string(
            "--bevy_polyline_retained_continuous_polyline",
        ),
    }
}

/// Classify an argument as a scenario flag.
pub fn scenario_from_flag(s: &String) -> (r: Option<Scenario>)
    ensures
        r == spec_flag_scenario(s@),
{
    if string_is(s, "--bevy_lines_example_retained") {
        Some(Scenario::BevyLinesExampleRetained)
    } else if string_is(s, "--bevy_plane_3d_retained") {
        Some(Scenario::BevyPlane3dRetained)
    } else if string_is(s, "--bevy_plane_3d_retained_combined") {
        Some(Scenario::BevyPlane3dRetainedCombined)
    } else if string_is(s, "--gizmos_immediate") {
        Some(Scenario::GizmosImmediate)
    } else if string_is(s, "--gizmos_immediate_nan") {
        Some(Scenario::GizmosImmediateNan)
    } else if string_is(s, "--gizmos_immediate_continuous_polyline") {
        Some(Scenario::GizmosImmediateContinuousPolyline)
    } else if string_is(s, "--bevy_vector_shapes_retained") {
        Some(Scenario::BevyVectorShapesRetained)
    } else if string_is(s, "--bevy_vector_shapes_immediate") {
        Some(Scenario::BevyVectorShapesImmediate)
    } else if string_is(s, "--bevy_polyline_retained") {
        Some(Scenario::BevyPolylineRetained)
    } else if string_is(s, "--bevy_polyline_retained_nan") {
        Some(Scenario::BevyPolylineRetainedNan)
    } else if string_is(s, "--bevy_polyline_retained_continuous_polyline") {
        Some(Scenario::BevyPolylineRetainedContinuousPolyline)
    } else {
        None
    }
}

/// Whether an argument looks like a flag.
fn is_flag(s: &String) -> (r: bool)
    ensures
        r == spec_is_flag(s@),
{
    let text = s.as_str();
    if text.unicode_len() < 2 {
        return false;
    }
    text.get_char(0) == '-' && text.get_char(1) == '-'
}

/// Whether a flag is one this program understands.
fn is_known_flag(s: &String) -> (r: bool)
    ensures
        r == spec_known_flag(s@),
{
    string_is(s, "--benchmark") || string_is(s, "--auto_bench") || string_is(s, "--verbose")
        || string_is(s, "--auto_count") || scenario_from_flag(s).is_some()
}

/// The shape of working set each scenario's backend consumes.
pub open spec fn spec_workload_form(s: Scenario) -> WorkloadForm {
    match s {
        Scenario::GizmosImmediateContinuousPolyline => WorkloadForm::ContinuousPath,
        Scenario::BevyPolylineRetainedContinuousPolyline => WorkloadForm::ContinuousPath,
        Scenario::GizmosImmediateNan => WorkloadForm::NanDelimitedPath,
        Scenario::BevyPolylineRetainedNan => WorkloadForm::NanDelimitedPath,
        _ => WorkloadForm::Segments,
    }
}

/// The shape of working set a scenario's backend consumes.
pub fn workload_form(s: Scenario) -> (r: WorkloadForm)
    ensures
        r == spec_workload_form(s),
{
    match s {
        Scenario::GizmosImmediateContinuousPolyline => WorkloadForm::ContinuousPath,
        Scenario::BevyPolylineRetainedContinuousPolyline => WorkloadForm::ContinuousPath,
        Scenario::GizmosImmediateNan => WorkloadForm::NanDelimitedPath,
        Scenario::BevyPolylineRetainedNan => WorkloadForm::NanDelimitedPath,
        _ => WorkloadForm::Segments,
    }
}

/// The fixed order the orchestrator runs the scenarios in.
pub open spec fn spec_benchmark_scenarios() -> Seq<Scenario> {
    seq![
        Scenario::BevyLinesExampleRetained,
        Scenario::BevyPlane3dRetained,
        Scenario::BevyPlane3dRetainedCombined,
        Scenario::GizmosImmediate,
        Scenario::GizmosImmediateNan,
        Scenario::GizmosImmediateContinuousPolyline,
        Scenario::BevyVectorShapesRetained,
        Scenario::BevyVectorShapesImmediate,
        Scenario::BevyPolylineRetained,
        Scenario::BevyPolylineRetainedNan,
        Scenario::BevyPolylineRetainedContinuousPolyline,
    ]
}

/// The fixed scenario list, in run order.
pub fn benchmark_scenarios() -> (r: Vec<Scenario>)
    ensures
        r@ == spec_benchmark_scenarios(),
{
    let mut r: Vec<Scenario> = Vec::new();
    r.push(Scenario::BevyLinesExampleRetained);
    r.push(Scenario::BevyPlane3dRetained);
    r.push(Scenario::BevyPlane3dRetainedCombined);
    r.push(Scenario::GizmosImmediate);
    r.push(Scenario::GizmosImmediateNan);
    r.push(Scenario::GizmosImmediateContinuousPolyline);
    r.push(Scenario::BevyVectorShapesRetained);
    r.push(Scenario::BevyVectorShapesImmediate);
    r.push(Scenario::BevyPolylineRetained);
    r.push(Scenario::BevyPolylineRetainedNan);
    r.push(Scenario::BevyPolylineRetainedContinuousPolyline);
    proof {
        assert(r@ =~= spec_benchmark_scenarios());
    }
    r
}

/// The views of an argument list.
pub open spec fn spec_arg_views(args: Seq<String>) -> Seq<Seq<char>> {
    args.map_values(|s: String| s@)
}

/// Whether some argument equals `f`.
pub open spec fn spec_has_flag(a: Seq<Seq<char>>, f: Seq<char>) -> bool {
    exists|i: int| 0 <= i < a.len() && a[i] == f
}

/// Whether some argument is the flag of scenario `s`.
pub open spec fn spec_scenario_flagged(a: Seq<Seq<char>>, s: Scenario) -> bool {
    exists|i: int| 0 <= i < a.len() && spec_flag_scenario(a[i]) == Some(s)
}

/// Whether some argument looks like a flag but matches none.
pub open spec fn spec_has_unknown_flag(a: Seq<Seq<char>>) -> bool {
    exists|i: int| 0 <= i < a.len() && spec_is_flag(a[i]) && !spec_known_flag(a[i])
}

/// Whether two different scenarios are both flagged.
pub open spec fn spec_conflicting_scenarios(a: Seq<Seq<char>>) -> bool {
    exists|s1: Scenario, s2: Scenario|
        s1 != s2 && spec_scenario_flagged(a, s1) && spec_scenario_flagged(a, s2)
}

/// Whether the arguments neither start the orchestrator nor flag any
/// scenario.
pub open spec fn spec_missing_scenario(a: Seq<Seq<char>>) -> bool {
    &&& !spec_has_flag(a, spec_benchmark_flag())
    &&& forall|s: Scenario| !spec_scenario_flagged(a, s)
}

/// Whether position `i` holds the first positional argument: it is not a
/// flag and everything before it is.
pub open spec fn spec_first_positional_at(a: Seq<Seq<char>>, i: int) -> bool {
    &&& 0 <= i < a.len()
    &&& !spec_is_flag(a[i])
    &&& forall|j: int| 0 <= j < i ==> spec_is_flag(a[j])
}

/// What a successfully parsed configuration says of the arguments it was
/// parsed from.
pub open spec fn spec_config_matches(c: RunConfig, a: Seq<Seq<char>>) -> bool {
    &&& c.orchestrate == spec_has_flag(a, spec_benchmark_flag())
    &&& c.batch_child == spec_has_flag(a, spec_auto_bench_flag())
    &&& c.verbose == spec_has_flag(a, spec_verbose_flag())
    &&& c.auto_workload == spec_has_flag(a, spec_auto_workload_flag())
    &&& forall|s: Scenario| (c.scenario == Some(s)) == spec_scenario_flagged(a, s)
    &&& (c.display_name is Some) == (exists|i: int| spec_first_positional_at(a, i))
    &&& (c.display_name matches Some(d) ==> exists|i: int|
        spec_first_positional_at(a, i) && d@ == a[i])
}

/// Extending the scanned prefix by one argument extends `spec_has_flag`
/// by exactly that argument's comparison.
proof fn lemma_has_flag_step(a: Seq<Seq<char>>, f: Seq<char>, i: int)
    requires
        0 <= i < a.len(),
    ensures
        spec_has_flag(a.take(i + 1), f) == (spec_has_flag(a.take(i), f) || a[i] == f),
{
    let pre = a.take(i);
    let cur = a.take(i + 1);
    if spec_has_flag(pre, f) {
        let k = choose|k: int| 0 <= k < pre.len() && pre[k] == f;
        assert(cur[k] == f);
    }
    if a[i] == f {
        assert(cur[i] == f);
    }
    if spec_has_flag(cur, f) {
        let k = choose|k: int| 0 <= k < cur.len() && cur[k] == f;
        if k < i {
            assert(pre[k] == f);
        } else {
            assert(a[i] == f);
        }
    }
}

/// Extending the scanned prefix by one argument extends
/// `spec_scenario_flagged` by exactly that argument's classification.
proof fn lemma_scenario_step(a: Seq<Seq<char>>, s: Scenario, i: int)
    requires
        0 <= i < a.len(),
    ensures
        spec_scenario_flagged(a.take(i + 1), s) == (spec_scenario_flagged(a.take(i), s)
            || spec_flag_scenario(a[i]) == Some(s)),
{
    let pre = a.take(i);
    let cur = a.take(i + 1);
    if spec_scenario_flagged(pre, s) {
        let k = choose|k: int| 0 <= k < pre.len() && spec_flag_scenario(pre[k]) == Some(s);
        assert(spec_flag_scenario(cur[k]) == Some(s));
    }
    if spec_flag_scenario(a[i]) == Some(s) {
        assert(spec_flag_scenario(cur[i]) == Some(s));
    }
    if spec_scenario_flagged(cur, s) {
        let k = choose|k: int| 0 <= k < cur.len() && spec_flag_scenario(cur[k]) == Some(s);
        if k < i {
            assert(spec_flag_scenario(pre[k]) == Some(s));
        } else {
            assert(spec_flag_scenario(a[i]) == Some(s));
        }
    }
}

/// A scenario flagged within a prefix is flagged within the whole
/// argument list.
proof fn lemma_scenario_flagged_widen(a: Seq<Seq<char>>, s: Scenario, i: int)
    requires
        0 <= i <= a.len(),
        spec_scenario_flagged(a.take(i), s),
    ensures
        spec_scenario_flagged(a, s),
{
    let pre = a.take(i);
    let k = choose|k: int| 0 <= k < pre.len() && spec_flag_scenario(pre[k]) == Some(s);
    assert(spec_flag_scenario(a[k]) == Some(s));
}

/// Every general flag looks like a flag.
proof fn lemma_general_flags_are_flags()
    ensures
        spec_is_flag(spec_benchmark_flag()),
        spec_is_flag(spec_auto_bench_flag()),
        spec_is_flag(spec_verbose_flag()),
        spec_is_flag(spec_auto_workload_flag()),
{
    reveal_strlit("--benchmark");
    reveal_strlit("--auto_bench");
    reveal_strlit("--verbose");
    reveal_strlit("--auto_count");
}

/// Every scenario flag looks like a flag.
proof fn lemma_scenario_flags_are_flags()
    ensures
        forall|s: Scenario| spec_is_flag(#[trigger] spec_scenario_flag(s)),
{
    reveal_strlit("--bevy_lines_example_retained");
    reveal_strlit("--bevy_plane_3d_retained");
    reveal_strlit("--bevy_plane_3d_retained_combined");
    reveal_strlit("--gizmos_immediate");
    reveal_strlit("--gizmos_immediate_nan");
    reveal_strlit("--gizmos_immediate_continuous_polyline");
    reveal_strlit("--bevy_vector_shapes_retained");
    reveal_strlit("--bevy_vector_shapes_immediate");
    reveal_strlit("--bevy_polyline_retained");
    reveal_strlit("--bevy_polyline_retained_nan");
    reveal_strlit("--bevy_polyline_retained_continuous_polyline");
}

/// Parse a run configuration from the arguments after the program name.
///
/// Flags are order-independent.  An argument that looks like a flag but
/// matches none is rejected; two different scenario flags are rejected;
/// and unless the run is an orchestration, a missing scenario flag is
/// rejected.  The first argument that is not a flag becomes the display
/// name.
pub fn parse_run_config(args: &Vec<String>) -> (r: Result<RunConfig, ConfigError>)
    ensures
        ({
            let a = spec_arg_views(args@);
            &&& spec_has_unknown_flag(a) ==> r == Err::<RunConfig, ConfigError>(
                ConfigError::UnrecognizedFlag,
            )
            &&& !spec_has_unknown_flag(a) && spec_conflicting_scenarios(a) ==> r == Err::<
                RunConfig,
                ConfigError,
            >(ConfigError::ConflictingScenarios)
            &&& !spec_has_unknown_flag(a) && !spec_conflicting_scenarios(a)
                && spec_missing_scenario(a) ==> r == Err::<RunConfig, ConfigError>(
                ConfigError::MissingScenario,
            )
            &&& !spec_has_unknown_flag(a) && !spec_conflicting_scenarios(a)
                && !spec_missing_scenario(a) ==> (r matches Ok(c) && spec_config_matches(c, a))
        }),
{
    let ghost a = spec_arg_views(args@);
    proof {
        assert(a.len() == args@.len());
    }
    let mut i: usize = 0;
    while i < args.len()
        invariant
            a == spec_arg_views(args@),
            i <= args@.len(),
            forall|k: int| 0 <= k < i ==> !(spec_is_flag(a[k]) && !spec_known_flag(a[k])),
        decreases args@.len() - i,
    {
        let arg = &args[i];
        proof {
            assert(a[i as int] == args@[i as int]@);
        }
        if is_flag(arg) && !is_known_flag(arg) {
            return Err(ConfigError::UnrecognizedFlag);
        }
        i = i + 1;
    }
    proof {
        // The scan returned early on any unknown flag, so none is left.
        if spec_has_unknown_flag(a) {
            let k = choose|k: int| 0 <= k < a.len() && spec_is_flag(a[k]) && !spec_known_flag(
                a[k],
            );
            assert(false);
        }
        assert(!spec_has_unknown_flag(a));
    }
    let mut orchestrate = false;
    let mut batch_child = false;
    let mut verbose = false;
    let mut auto_workload = false;
    let mut scenario: Option<Scenario> = None;
    let mut conflict = false;
    let mut display_name: Option<String> = None;
    i = 0;
    while i < args.len()
        invariant
            a == spec_arg_views(args@),
            i <= args@.len(),
            orchestrate == spec_has_flag(a.take(i as int), spec_benchmark_flag()),
            batch_child == spec_has_flag(a.take(i as int), spec_auto_bench_flag()),
            verbose == spec_has_flag(a.take(i as int), spec_verbose_flag()),
            auto_workload == spec_has_flag(a.take(i as int), spec_auto_workload_flag()),
            !conflict ==> forall|s: Scenario|
                (scenario == Some(s)) == spec_scenario_flagged(a.take(i as int), s),
            conflict ==> spec_conflicting_scenarios(a),
            display_name is None ==> forall|j: int| 0 <= j < i ==> spec_is_flag(a[j]),
            display_name matches Some(d) ==> exists|j: int|
                spec_first_positional_at(a, j) && d@ == a[j],
        decreases args@.len() - i,
    {
        let arg = &args[i];
        proof {
            assert(a[i as int] == args@[i as int]@);
            lemma_general_flags_are_flags();
            lemma_scenario_flags_are_flags();
            lemma_has_flag_step(a, spec_benchmark_flag(), i as int);
            lemma_has_flag_step(a, spec_auto_bench_flag(), i as int);
            lemma_has_flag_step(a, spec_verbose_flag(), i as int);
            lemma_has_flag_step(a, spec_auto_workload_flag(), i as int);
            assert forall|s: Scenario|
                spec_scenario_flagged(a.take(i as int + 1), s) == (spec_scenario_flagged(
                    a.take(i as int),
                    s,
                ) || spec_flag_scenario(a[i as int]) == Some(s)) by {
                lemma_scenario_step(a, s, i as int);
            }
        }
        let matches_benchmark = string_is(arg, "--benchmark");
        let matches_auto_bench = string_is(arg, "--auto_bench");
        let matches_verbose = string_is(arg, "--verbose");
        let matches_auto_workload = string_is(arg, "--auto_count");
        let classified = scenario_from_flag(arg);
        if matches_benchmark {
            orchestrate = true;
        }
        if matches_auto_bench {
            batch_child = true;
        }
        if matches_verbose {
            verbose = true;
        }
        if matches_auto_workload {
            auto_workload = true;
        }
        match classified {
            Some(s) => {
                proof {
                    // The classifier recognizes a flag only as its own
                    // literal, which looks like a flag.
                    assert(a[i as int] == spec_scenario_flag(s));
                }
                match scenario {
                    None => {
                        scenario = Some(s);
                    },
                    Some(t) => {
                        if !(t == s) {
                            proof {
                                if !conflict {
                                    lemma_scenario_flagged_widen(a, t, i as int);
                                    assert(spec_flag_scenario(a[i as int]) == Some(s));
                                    assert(spec_scenario_flagged(a, s));
                                }
                            }
                            conflict = true;
                        }
                    },
                }
            },
            None => {
                if !matches_benchmark && !matches_auto_bench && !matches_verbose
                    && !matches_auto_workload && !is_flag(arg) && display_name.is_none() {
                    display_name = Some(arg.clone());
                    proof {
                        assert(spec_first_positional_at(a, i as int));
                    }
                }
            },
        }
        proof {
            if !conflict {
                assert forall|s: Scenario|
                    (scenario == Some(s)) == spec_scenario_flagged(a.take(i as int + 1), s) by {
                    lemma_scenario_step(a, s, i as int);
                }
            }
        }
        i = i + 1;
    }
    proof {
        assert(i == args@.len());
        assert(a.take(i as int) =~= a);
        assert(a.take(i as int) == a);
        if !conflict && spec_conflicting_scenarios(a) {
            let (s1, s2) = choose|s1: Scenario, s2: Scenario|
                s1 != s2 && spec_scenario_flagged(a, s1) && spec_scenario_flagged(a, s2);
            assert(spec_scenario_flagged(a.take(i as int), s1));
            assert(spec_scenario_flagged(a.take(i as int), s2));
            assert(scenario == Some(s1) && scenario == Some(s2));
        }
    }
    if conflict {
        return Err(ConfigError::ConflictingScenarios);
    }
    if scenario.is_none() && !orchestrate {
        return Err(ConfigError::MissingScenario);
    }
    let c = RunConfig { orchestrate, batch_child, verbose, auto_workload, scenario, display_name };
    proof {
        assert(c.orchestrate == spec_has_flag(a, spec_benchmark_flag()));
        assert(c.batch_child == spec_has_flag(a, spec_auto_bench_flag()));
        assert(c.verbose == spec_has_flag(a, spec_verbose_flag()));
        assert(c.auto_workload == spec_has_flag(a, spec_auto_workload_flag()));
        assert forall|s: Scenario| (c.scenario == Some(s)) == spec_scenario_flagged(a, s) by {
            assert((scenario == Some(s)) == spec_scenario_flagged(a.take(i as int), s));
        }
        // Without a display name every argument was a flag, so no
        // position can be the first positional one.
        if c.display_name is None && (exists|j: int| spec_first_positional_at(a, j)) {
            let j = choose|j: int| spec_first_positional_at(a, j);
            assert(spec_is_flag(a[j]));
            assert(false);
        }
        if spec_missing_scenario(a) && !(c.scenario is None) {
            let t = scenario->Some_0;
            assert((scenario == Some(t)) == spec_scenario_flagged(a.take(i as int), t));
            assert(spec_scenario_flagged(a, t));
        }
    }
    Ok(c)
}

/// The argument list one child run is handed: the child's scenario
/// flag, the batch-child flag, and then each shared flag — verbose,
/// automatic workload sizing — exactly when it is passed through.
pub open spec fn spec_child_args(scenario: Scenario, verbose: bool, auto_workload: bool) -> Seq<
    Seq<char>,
> {
    let base = seq![spec_scenario_flag(scenario), spec_auto_bench_flag()];
    let with_verbose = if verbose {
        base.push(spec_verbose_flag())
    } else {
        base
    };
    if auto_workload {
        with_verbose.push(spec_auto_workload_flag())
    } else {
        with_verbose
    }
}

/// The argument list the orchestrator hands one child run, with the
/// shared flags — verbose, automatic workload sizing — passed through.
pub fn child_args(scenario: Scenario, verbose: bool, auto_workload: bool) -> (r: Vec<String>)
    ensures
        spec_arg_views(r@) == spec_child_args(scenario, verbose, auto_workload),
{
    let mut r: Vec<String> = Vec::new();
    r.push(scenario_flag(scenario));
    r.push(make_string("--auto_bench"));
    if verbose {
        r.push(make_string("--verbose"));
    }
    if auto_workload {
        r.push(make_string("--auto_count"));
    }
    proof {
        assert(spec_arg_views(r@) =~= spec_child_args(scenario, verbose, auto_workload));
    }
    r
}

} // verus!
