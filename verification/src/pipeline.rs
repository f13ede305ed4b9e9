use vstd::prelude::*;
use vstd::string::StringExecFns;
use vstd::pervasive::unreached;
use crate::args::PProfArgs;
use crate::events::{last_exec, lines_of, split_lines, last_executable};
use crate::paths::{parent_of, artifact_paths};
use crate::status::{TermStatus, status_fail_msg, status_fail_message, error_line};

verus! {

/// Where the pipeline stands: a strictly linear run with no way back.
pub enum State {
    /// The external viewer was launched instead of the pipeline.
    ViewerRunning,
    /// The build-manifest snippet is being appended instead of the pipeline.
    Appending,
    /// Waiting for the location of the build tool.
    AwaitingTool,
    /// The build tool runs.
    Building,
    /// The sampling profiler runs around the executable.
    Capturing { capture_path: String, trace_path: String },
    /// The converter turns the capture into the trace.
    Converting { trace_path: String },
    /// Terminal: the process's own exit code is decided.
    Done { code: i32 },
}

/// What the surrounding program reports back after performing an action.
/// The `Err` of each carries the rendered cause of an I/O failure (a tool
/// that could not be started, a file that could not be created).
pub enum Event {
    ViewerFinished(Result<TermStatus, String>),
    AppendFinished(Result<(), String>),
    /// The build tool's location, or the rendered cause when it is unknown.
    ToolPath(Result<String, String>),
    /// The build tool's termination status and its captured standard output.
    BuildFinished(Result<(TermStatus, Vec<u8>), String>),
    CaptureFinished(Result<TermStatus, String>),
    ConvertFinished(Result<TermStatus, String>),
}

/// What the surrounding program must do next. Every subprocess is started
/// and waited on before the next step; nothing runs concurrently.
pub enum Action {
    /// Launch the external viewer and wait for it.
    RunViewer { program: String, args: Vec<String> },
    /// Append the profiling profile to the build manifest.
    AppendManifest,
    /// Look up the build tool's location.
    ReadBuildTool,
    /// Run the build with structured event output, capturing its stdout.
    RunBuild { program: String, args: Vec<String> },
    /// Run the profiler around the executable, all streams inherited.
    RunCapture { program: String, args: Vec<String>, executable: String },
    /// Create `stdout_file` and run the converter with stdout sent there.
    RunConvert { program: String, args: Vec<String>, stdout_file: String },
    /// Report `message` on the error stream and exit with code 1.
    Fail { message: String },
    /// Report the trace location and the viewer hint, then exit with code 0.
    Succeed { trace_path: String },
    /// Exit with code 0 with nothing further to report.
    Finish,
}

/// The texts of a sequence of strings.
pub open spec fn arg_views(strs: Seq<String>) -> Seq<Seq<char>> {
    strs.map_values(|s: String| s@)
}

/// Which event may answer which state: exactly the one its action asks for.
/// No event may answer a terminal state.
pub open spec fn compatible(state: State, event: Event) -> bool {
    match state {
        State::ViewerRunning => event is ViewerFinished,
        State::Appending => event is AppendFinished,
        State::AwaitingTool => event is ToolPath,
        State::Building => event is BuildFinished,
        State::Capturing { .. } => event is CaptureFinished,
        State::Converting { .. } => event is ConvertFinished,
        State::Done { .. } => false,
    }
}

/// The run is over, failed: the process reports `msg` and exits with code 1.
pub open spec fn failed_outcome(r: (State, Action), msg: Seq<char>) -> bool {
    &&& r.0 matches State::Done { code } && code == 1
    &&& r.1 matches Action::Fail { message } && message@ == msg
}

/// The run is over with nothing left to report: the process exits with code 0.
pub open spec fn finished_outcome(r: (State, Action)) -> bool {
    &&& r.0 matches State::Done { code } && code == 0
    &&& r.1 is Finish
}

/// The build tool's argument vector: a profiling-optimized build with
/// structured event output.
pub open spec fn build_args_spec() -> Seq<Seq<char>> {
    seq!["build"@, "--message-format=json-render-diagnostics"@, "--profile=profiling"@]
}

/// The profiler's argument vector: record call graphs at a fixed frequency
/// into the capture file, wrapping the executable and the forwarded
/// arguments.
pub open spec fn capture_args_spec(capture_path: Seq<char>, executable: Seq<char>, app_args: Seq<Seq<char>>) -> Seq<Seq<char>> {
    seq!["record"@, "--output="@ + capture_path, "-g"@, "-F"@, "999"@, executable] + app_args
}

/// The converter's argument vector: read the capture, annotate process ids.
pub open spec fn convert_args_spec(capture_path: Seq<char>) -> Seq<Seq<char>> {
    seq!["script"@, "-F"@, "+pid"@, "--input="@ + capture_path]
}

fn fail_passthrough(cause: String) -> (r: (State, Action))
    ensures
        failed_outcome(r, "Error: "@ + cause@),
{
    (State::Done { code: 1 }, Action::Fail { message: error_line(cause.as_str()) })
}

fn fail_status(st: &TermStatus) -> (r: (State, Action))
    ensures
        failed_outcome(r, status_fail_msg(*st)),
{
    (State::Done { code: 1 }, Action::Fail { message: status_fail_message(st) })
}

/// The first step of a run. The viewer escape hatch bypasses everything;
/// the manifest flag bypasses the pipeline; otherwise the pipeline starts
/// by locating the build tool.
pub fn init(config: &PProfArgs) -> (r: (State, Action))
    ensures
        config.open_firefox_profiler ==> r.0 is ViewerRunning && (r.1 matches Action::RunViewer {
            program,
            args,
        } && program@ == "firefox"@ && arg_views(args@) == seq![
            "https://profiler.firefox.com"@,
        ]),
        !config.open_firefox_profiler && config.add ==> r.0 is Appending
            && r.1 is AppendManifest,
        !config.open_firefox_profiler && !config.add ==> r.0 is AwaitingTool
            && r.1 is ReadBuildTool,
{
    if config.open_firefox_profiler {
        let mut args: Vec<String> = Vec::new();
        args.push(String::from_str("https://profiler.firefox.com"));
        proof {
            assert(arg_views(args@) =~= seq!["https://profiler.firefox.com"@]);
        }
        (State::ViewerRunning, Action::RunViewer { program: String::from_str("firefox"), args })
    } else if config.add {
        (State::Appending, Action::AppendManifest)
    } else {
        (State::AwaitingTool, Action::ReadBuildTool)
    }
}

/// One transition of the pipeline: from the current state and the outcome of
/// the last action to the next state and the next action. Every stage's
/// failure — a tool that could not be started, a non-success termination
/// status, a build that names no executable, an executable without a usable
/// parent directory — ends the run with a single report and exit code 1; the
/// one exception is the profiled program's own status when `ignore_exit` is
/// set. A run that reaches the end reports the trace location and exits 0.
pub fn on_event(config: &PProfArgs, state: State, event: Event) -> (r: (State, Action))
    requires
        compatible(state, event),
    ensures
        r.0 matches State::Done { code } ==> code == 0 || code == 1,
        event matches Event::ViewerFinished(res) ==> match res {
            Ok(st) => if st.is_success() {
                finished_outcome(r)
            } else {
                failed_outcome(r, status_fail_msg(st))
            },
            Err(e) => failed_outcome(r, "Error: "@ + e@),
        },
        event matches Event::AppendFinished(res) ==> match res {
            Ok(_) => finished_outcome(r),
            Err(e) => failed_outcome(r, "Error: "@ + e@),
        },
        event matches Event::ToolPath(res) ==> match res {
            Ok(tool) => {
                &&& r.0 is Building
                &&& r.1 matches Action::RunBuild { program, args } && program@ == tool@
                    && arg_views(args@) == build_args_spec()
            },
            Err(e) => failed_outcome(r, "Error: "@ + e@),
        },
        event matches Event::BuildFinished(res) ==> match res {
            Ok(p) => if !p.0.is_success() {
                failed_outcome(r, status_fail_msg(p.0))
            } else {
                match last_exec(lines_of(p.1@)) {
                    Option::None => failed_outcome(r, "Error: "@ + "Could not find executable"@),
                    Option::Some(exe) => match parent_of(exe) {
                        Option::None => failed_outcome(
                            r,
                            "Error: "@ + "Could not determine output directory"@,
                        ),
                        Option::Some(d) => {
                            &&& r.0 matches State::Capturing { capture_path, trace_path }
                                && capture_path@ == d + "/perf.data"@ && trace_path@ == d
                                + "/perf.trace"@
                            &&& r.1 matches Action::RunCapture { program, args, executable }
                                && program@ == "perf"@ && executable@ == exe && arg_views(args@)
                                == capture_args_spec(
                                d + "/perf.data"@,
                                exe,
                                arg_views(config.app_args@),
                            )
                        },
                    },
                }
            },
            Err(e) => failed_outcome(r, "Error: "@ + e@),
        },
        event matches Event::CaptureFinished(res) ==> match res {
            Ok(st) => if !config.ignore_exit && !st.is_success() {
                failed_outcome(r, status_fail_msg(st))
            } else {
                state matches State::Capturing { capture_path, trace_path } ==> {
                    &&& r.0 matches State::Converting { trace_path: t } && t@ == trace_path@
                    &&& r.1 matches Action::RunConvert { program, args, stdout_file }
                        && program@ == "perf"@ && stdout_file@ == trace_path@ && arg_views(args@)
                        == convert_args_spec(capture_path@)
                }
            },
            Err(e) => failed_outcome(r, "Error: "@ + e@),
        },
        event matches Event::ConvertFinished(res) ==> match res {
            Ok(st) => if !st.is_success() {
                failed_outcome(r, status_fail_msg(st))
            } else {
                state matches State::Converting { trace_path } ==> {
                    &&& r.0 matches State::Done { code } && code == 0
                    &&& r.1 matches Action::Succeed { trace_path: t } && t@ == trace_path@
                }
            },
            Err(e) => failed_outcome(r, "Error: "@ + e@),
        },
{
    match event {
        Event::ViewerFinished(res) => match res {
            Ok(st) => if st.success() {
                (State::Done { code: 0 }, Action::Finish)
            } else {
                fail_status(&st)
            },
            Err(e) => fail_passthrough(e),
        },
        Event::AppendFinished(res) => match res {
            Ok(_) => (State::Done { code: 0 }, Action::Finish),
            Err(e) => fail_passthrough(e),
        },
        Event::ToolPath(res) => match res {
            Ok(tool) => {
                let mut bargs: Vec<String> = Vec::new();
                bargs.push(String::from_str("build"));
                bargs.push(String::from_str("--message-format=json-render-diagnostics"));
                bargs.push(String::from_str("--profile=profiling"));
                proof {
                    assert(arg_views(bargs@) =~= build_args_spec());
                }
                (State::Building, Action::RunBuild { program: tool, args: bargs })
            },
            Err(e) => fail_passthrough(e),
        },
        Event::BuildFinished(res) => match res {
            Ok((st, out)) => if !st.success() {
                fail_status(&st)
            } else {
                let lines = split_lines(&out);
                match last_executable(&lines) {
                    Option::Some(exe) => match artifact_paths(exe.as_str()) {
                        Option::Some(ap) => {
                            let mut cargs: Vec<String> = Vec::new();
                            cargs.push(String::from_str("record"));
                            cargs.push(
                                String::from_str("--output=").concat(ap.capture_path.as_str()),
                            );
                            cargs.push(String::from_str("-g"));
                            cargs.push(String::from_str("-F"));
                            cargs.push(String::from_str("999"));
                            cargs.push(exe.clone());
                            let ghost base = arg_views(cargs@);
                            proof {
                                assert(base =~= seq![
                                    "record"@,
                                    "--output="@ + ap.capture_path@,
                                    "-g"@,
                                    "-F"@,
                                    "999"@,
                                    exe@,
                                ]);
                            }
                            let mut k: usize = 0;
                            while k < config.app_args.len()
                                invariant
                                    k <= config.app_args@.len(),
                                    arg_views(cargs@) == base + arg_views(
                                        config.app_args@.take(k as int),
                                    ),
                                decreases config.app_args@.len() - k,
                            {
                                let ghost before = arg_views(cargs@);
                                cargs.push(config.app_args[k].clone());
                                proof {
                                    assert(arg_views(cargs@) =~= before + seq![
                                        config.app_args@[k as int]@,
                                    ]);
                                    assert(arg_views(config.app_args@.take(k + 1)) =~= arg_views(
                                        config.app_args@.take(k as int),
                                    ) + seq![config.app_args@[k as int]@]);
                                    assert(base + arg_views(config.app_args@.take(k + 1)) =~= (base
                                        + arg_views(config.app_args@.take(k as int))) + seq![
                                        config.app_args@[k as int]@,
                                    ]);
                                }
                                k = k + 1;
                            }
                            proof {
                                assert(config.app_args@.take(config.app_args@.len() as int)
                                    =~= config.app_args@);
                                assert(arg_views(cargs@) =~= capture_args_spec(
                                    ap.capture_path@,
                                    exe@,
                                    arg_views(config.app_args@),
                                ));
                            }
                            (
                                State::Capturing {
                                    capture_path: ap.capture_path,
                                    trace_path: ap.trace_path,
                                },
                                Action::RunCapture {
                                    program: String::from_str("perf"),
                                    args: cargs,
                                    executable: exe,
                                },
                            )
                        },
                        Option::None => fail_passthrough(
                            String::from_str("Could not determine output directory"),
                        ),
                    },
                    Option::None => fail_passthrough(String::from_str("Could not find executable")),
                }
            },
            Err(e) => fail_passthrough(e),
        },
        Event::CaptureFinished(res) => match res {
            Ok(st) => if !config.ignore_exit && !st.success() {
                fail_status(&st)
            } else {
                match state {
                    State::Capturing { capture_path, trace_path } => {
                        let mut vargs: Vec<String> = Vec::new();
                        vargs.push(String::from_str("script"));
                        vargs.push(String::from_str("-F"));
                        vargs.push(String::from_str("+pid"));
                        vargs.push(String::from_str("--input=").concat(capture_path.as_str()));
                        proof {
                            assert(arg_views(vargs@) =~= convert_args_spec(capture_path@));
                        }
                        (
                            State::Converting { trace_path: trace_path.clone() },
                            Action::RunConvert {
                                program: String::from_str("perf"),
                                args: vargs,
                                stdout_file: trace_path,
                            },
                        )
                    },
                    _ => unreached(),
                }
            },
            Err(e) => fail_passthrough(e),
        },
        Event::ConvertFinished(res) => match res {
            Ok(st) => if !st.success() {
                fail_status(&st)
            } else {
                match state {
                    State::Converting { trace_path } => (
                        State::Done { code: 0 },
                        Action::Succeed { trace_path },
                    ),
                    _ => unreached(),
                }
            },
            Err(e) => fail_passthrough(e),
        },
    }
}

/// Lets a caller outside the verified world test `on_event`'s precondition
/// before handing an event over.
pub fn check_compatible(state: &State, event: &Event) -> (r: bool)
    ensures
        r == compatible(*state, *event),
{
    match state {
        State::ViewerRunning => matches!(event, Event::ViewerFinished(_)),
        State::Appending => matches!(event, Event::AppendFinished(_)),
        State::AwaitingTool => matches!(event, Event::ToolPath(_)),
        State::Building => matches!(event, Event::BuildFinished(_)),
        State::Capturing { .. } => matches!(event, Event::CaptureFinished(_)),
        State::Converting { .. } => matches!(event, Event::ConvertFinished(_)),
        State::Done { .. } => false,
    }
}

/// A terminal state accepts no further event: once a run has failed or
/// finished, no stage — in particular neither capture nor convert — can be
/// reached again.
pub proof fn lemma_done_is_terminal(state: State, event: Event)
    requires
        state is Done,
    ensures
        !compatible(state, event),
{
}

} // verus!
