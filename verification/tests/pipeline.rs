use cargo_pprof::args::PProfArgs;
use cargo_pprof::events::{last_executable, split_lines};
use cargo_pprof::paths::{artifact_paths, parent_dir};
use cargo_pprof::pipeline::{init, on_event, Action, Event, State};
use cargo_pprof::status::{i32_decimal, resolve_status, status_fail_message, TermStatus, u64_decimal};

fn plain_config() -> PProfArgs {
    PProfArgs { add: false, open_firefox_profiler: false, ignore_exit: false, app_args: Vec::new() }
}

fn lines(texts: &[&str]) -> Vec<Vec<u8>> {
    texts.iter().map(|t| t.as_bytes().to_vec()).collect()
}

#[test]
fn split_lines_cuts_at_newlines() {
    let bytes = b"one\ntwo\r\n\nlast".to_vec();
    let cut = split_lines(&bytes);
    assert_eq!(cut.len(), 4);
    assert_eq!(cut[0], b"one".to_vec());
    assert_eq!(cut[1], b"two".to_vec());
    assert_eq!(cut[2], b"".to_vec());
    assert_eq!(cut[3], b"last".to_vec());
}

#[test]
fn split_lines_empty_input_has_no_lines() {
    let cut = split_lines(&Vec::new());
    assert_eq!(cut.len(), 0);
}

#[test]
fn split_lines_trailing_newline_adds_no_empty_line() {
    let cut = split_lines(&b"a\nb\n".to_vec());
    assert_eq!(cut.len(), 2);
    assert_eq!(cut[0], b"a".to_vec());
    assert_eq!(cut[1], b"b".to_vec());
}

#[test]
fn parser_returns_last_present_executable() {
    let input = lines(&[
        "{\"executable\":\"/tmp/out/build-script\"}",
        "not a record at all",
        "{\"executable\":null}",
        "{\"executable\":\"/tmp/out/app\"}",
        "{\"reason\":\"build-finished\"}",
    ]);
    let found = last_executable(&input);
    assert_eq!(found, Some("/tmp/out/app".to_string()));
}

#[test]
fn parser_skips_malformed_lines_between_records() {
    let input = lines(&[
        "warning: something",
        "{\"executable\":\"/a/first\"}",
        "{broken json",
        "{\"executable\":\"/a/second\"}",
        "}{",
    ]);
    assert_eq!(last_executable(&input), Some("/a/second".to_string()));
}

#[test]
fn parser_finds_nothing_in_empty_input() {
    assert_eq!(last_executable(&Vec::new()), None);
}

#[test]
fn parser_finds_nothing_when_no_record_names_an_executable() {
    let input = lines(&[
        "{\"executable\":null}",
        "{\"reason\":\"compiler-message\"}",
        "diagnostic text",
    ]);
    assert_eq!(last_executable(&input), None);
}

#[test]
fn artifact_paths_are_siblings_of_the_executable() {
    let ap = artifact_paths("/tmp/out/app").unwrap();
    assert_eq!(ap.capture_path, "/tmp/out/perf.data".to_string());
    assert_eq!(ap.trace_path, "/tmp/out/perf.trace".to_string());
}

#[test]
fn bare_filename_has_no_artifact_paths() {
    assert!(parent_dir("app").is_none());
    assert!(artifact_paths("app").is_none());
}

#[test]
fn empty_parent_has_no_artifact_paths() {
    assert!(artifact_paths("/app").is_none());
}

#[test]
fn parent_dir_takes_text_before_last_slash() {
    assert_eq!(parent_dir("/tmp/out/app"), Some("/tmp/out".to_string()));
    assert_eq!(parent_dir("a/b"), Some("a".to_string()));
}

#[test]
fn decimal_rendering_is_exact() {
    assert_eq!(u64_decimal(0), "0".to_string());
    assert_eq!(u64_decimal(999), "999".to_string());
    assert_eq!(i32_decimal(42), "42".to_string());
    assert_eq!(i32_decimal(-7), "-7".to_string());
    assert_eq!(i32_decimal(i32::MIN), "-2147483648".to_string());
}

#[test]
fn status_messages_are_exact() {
    assert_eq!(
        status_fail_message(&TermStatus::Exited(101)),
        "Error: Cargo returned with exit code 101".to_string()
    );
    assert_eq!(
        status_fail_message(&TermStatus::Signaled),
        "Error: Cargo returned with an error".to_string()
    );
}

#[test]
fn resolve_status_passes_success_and_reports_failure() {
    assert!(resolve_status(&TermStatus::Exited(0)).is_ok());
    let err = resolve_status(&TermStatus::Exited(3)).unwrap_err();
    assert_eq!(err, "Error: Cargo returned with exit code 3".to_string());
    assert!(resolve_status(&TermStatus::Signaled).is_err());
}

#[test]
fn init_viewer_flag_bypasses_the_pipeline() {
    let mut config = plain_config();
    config.open_firefox_profiler = true;
    let (state, action) = init(&config);
    assert!(matches!(state, State::ViewerRunning));
    match action {
        Action::RunViewer { program, args } => {
            assert_eq!(program, "firefox".to_string());
            assert_eq!(args, vec!["https://profiler.firefox.com".to_string()]);
        }
        _ => panic!("expected the viewer to be launched"),
    }
}

#[test]
fn init_add_flag_appends_the_manifest_snippet() {
    let mut config = plain_config();
    config.add = true;
    let (state, action) = init(&config);
    assert!(matches!(state, State::Appending));
    assert!(matches!(action, Action::AppendManifest));
}

#[test]
fn init_starts_the_pipeline_by_locating_the_build_tool() {
    let (state, action) = init(&plain_config());
    assert!(matches!(state, State::AwaitingTool));
    assert!(matches!(action, Action::ReadBuildTool));
}

#[test]
fn missing_build_tool_fails_before_any_subprocess() {
    let config = plain_config();
    let (state, action) = init(&config);
    assert!(matches!(state, State::AwaitingTool));
    assert!(matches!(action, Action::ReadBuildTool));
    let (state, action) = on_event(
        &config,
        state,
        Event::ToolPath(Err("environment variable not found".to_string())),
    );
    assert!(matches!(state, State::Done { code: 1 }));
    match action {
        Action::Fail { message } => {
            assert_eq!(message, "Error: environment variable not found".to_string());
        }
        _ => panic!("expected the run to fail"),
    }
}

#[test]
fn failing_build_stops_the_run_before_capture() {
    let config = plain_config();
    let (state, action) = on_event(
        &config,
        State::Building,
        Event::BuildFinished(Ok((TermStatus::Exited(2), Vec::new()))),
    );
    assert!(matches!(state, State::Done { code: 1 }));
    match action {
        Action::Fail { message } => {
            assert_eq!(message, "Error: Cargo returned with exit code 2".to_string());
        }
        _ => panic!("expected the run to fail"),
    }
}

#[test]
fn build_without_executable_fails() {
    let config = plain_config();
    let stdout = b"{\"executable\":null}\n{\"reason\":\"build-finished\"}\n".to_vec();
    let (state, action) = on_event(
        &config,
        State::Building,
        Event::BuildFinished(Ok((TermStatus::Exited(0), stdout))),
    );
    assert!(matches!(state, State::Done { code: 1 }));
    match action {
        Action::Fail { message } => {
            assert_eq!(message, "Error: Could not find executable".to_string());
        }
        _ => panic!("expected the run to fail"),
    }
}

#[test]
fn executable_without_directory_fails() {
    let config = plain_config();
    let stdout = b"{\"executable\":\"app\"}\n".to_vec();
    let (state, action) = on_event(
        &config,
        State::Building,
        Event::BuildFinished(Ok((TermStatus::Exited(0), stdout))),
    );
    assert!(matches!(state, State::Done { code: 1 }));
    match action {
        Action::Fail { message } => {
            assert_eq!(message, "Error: Could not determine output directory".to_string());
        }
        _ => panic!("expected the run to fail"),
    }
}

#[test]
fn two_event_lines_drive_a_full_successful_run() {
    let mut config = plain_config();
    config.app_args = vec!["--iterations".to_string(), "10".to_string()];

    let (state, action) = init(&config);
    assert!(matches!(action, Action::ReadBuildTool));

    let (state, action) = on_event(&config, state, Event::ToolPath(Ok("cargo".to_string())));
    assert!(matches!(state, State::Building));
    match action {
        Action::RunBuild { program, args } => {
            assert_eq!(program, "cargo".to_string());
            assert_eq!(
                args,
                vec![
                    "build".to_string(),
                    "--message-format=json-render-diagnostics".to_string(),
                    "--profile=profiling".to_string(),
                ]
            );
        }
        _ => panic!("expected the build to run"),
    }

    let stdout = b"{\"executable\":null}\n{\"executable\":\"/tmp/out/app\"}\n".to_vec();
    let (state, action) = on_event(
        &config,
        state,
        Event::BuildFinished(Ok((TermStatus::Exited(0), stdout))),
    );
    match &state {
        State::Capturing { capture_path, trace_path } => {
            assert_eq!(capture_path, "/tmp/out/perf.data");
            assert_eq!(trace_path, "/tmp/out/perf.trace");
        }
        _ => panic!("expected the capture stage"),
    }
    match action {
        Action::RunCapture { program, args, executable } => {
            assert_eq!(program, "perf".to_string());
            assert_eq!(executable, "/tmp/out/app".to_string());
            assert_eq!(
                args,
                vec![
                    "record".to_string(),
                    "--output=/tmp/out/perf.data".to_string(),
                    "-g".to_string(),
                    "-F".to_string(),
                    "999".to_string(),
                    "/tmp/out/app".to_string(),
                    "--iterations".to_string(),
                    "10".to_string(),
                ]
            );
        }
        _ => panic!("expected the profiler to run"),
    }

    let (state, action) = on_event(&config, state, Event::CaptureFinished(Ok(TermStatus::Exited(0))));
    match &state {
        State::Converting { trace_path } => assert_eq!(trace_path, "/tmp/out/perf.trace"),
        _ => panic!("expected the convert stage"),
    }
    match action {
        Action::RunConvert { program, args, stdout_file } => {
            assert_eq!(program, "perf".to_string());
            assert_eq!(stdout_file, "/tmp/out/perf.trace".to_string());
            assert_eq!(
                args,
                vec![
                    "script".to_string(),
                    "-F".to_string(),
                    "+pid".to_string(),
                    "--input=/tmp/out/perf.data".to_string(),
                ]
            );
        }
        _ => panic!("expected the converter to run"),
    }

    let (state, action) = on_event(&config, state, Event::ConvertFinished(Ok(TermStatus::Exited(0))));
    assert!(matches!(state, State::Done { code: 0 }));
    match action {
        Action::Succeed { trace_path } => assert_eq!(trace_path, "/tmp/out/perf.trace".to_string()),
        _ => panic!("expected the run to succeed"),
    }
}

#[test]
fn carriage_return_terminators_do_not_disturb_the_parse() {
    let config = plain_config();
    let stdout = b"{\"executable\":null}\r\n{\"executable\":\"/tmp/out/app\"}\r\n".to_vec();
    let (state, action) = on_event(
        &config,
        State::Building,
        Event::BuildFinished(Ok((TermStatus::Exited(0), stdout))),
    );
    assert!(matches!(state, State::Capturing { .. }));
    match action {
        Action::RunCapture { executable, .. } => {
            assert_eq!(executable, "/tmp/out/app".to_string());
        }
        _ => panic!("expected the profiler to run"),
    }
}

#[test]
fn ignored_exit_code_still_converts_and_succeeds() {
    let mut config = plain_config();
    config.ignore_exit = true;
    let state = State::Capturing {
        capture_path: "/d/perf.data".to_string(),
        trace_path: "/d/perf.trace".to_string(),
    };
    let (state, action) =
        on_event(&config, state, Event::CaptureFinished(Ok(TermStatus::Exited(9))));
    assert!(matches!(state, State::Converting { .. }));
    assert!(matches!(action, Action::RunConvert { .. }));
    let (state, action) =
        on_event(&config, state, Event::ConvertFinished(Ok(TermStatus::Exited(0))));
    assert!(matches!(state, State::Done { code: 0 }));
    assert!(matches!(action, Action::Succeed { .. }));
}

#[test]
fn unignored_exit_code_stops_the_run_before_convert() {
    let config = plain_config();
    let state = State::Capturing {
        capture_path: "/d/perf.data".to_string(),
        trace_path: "/d/perf.trace".to_string(),
    };
    let (state, action) =
        on_event(&config, state, Event::CaptureFinished(Ok(TermStatus::Exited(9))));
    assert!(matches!(state, State::Done { code: 1 }));
    match action {
        Action::Fail { message } => {
            assert_eq!(message, "Error: Cargo returned with exit code 9".to_string());
        }
        _ => panic!("expected the run to fail"),
    }
}

#[test]
fn abnormal_termination_of_the_capture_is_reported_generically() {
    let config = plain_config();
    let state = State::Capturing {
        capture_path: "/d/perf.data".to_string(),
        trace_path: "/d/perf.trace".to_string(),
    };
    let (state, action) = on_event(&config, state, Event::CaptureFinished(Ok(TermStatus::Signaled)));
    assert!(matches!(state, State::Done { code: 1 }));
    match action {
        Action::Fail { message } => {
            assert_eq!(message, "Error: Cargo returned with an error".to_string());
        }
        _ => panic!("expected the run to fail"),
    }
}

#[test]
fn spawn_error_during_capture_is_fatal_even_with_ignore_exit() {
    let mut config = plain_config();
    config.ignore_exit = true;
    let state = State::Capturing {
        capture_path: "/d/perf.data".to_string(),
        trace_path: "/d/perf.trace".to_string(),
    };
    let (state, action) = on_event(
        &config,
        state,
        Event::CaptureFinished(Err("No such file or directory".to_string())),
    );
    assert!(matches!(state, State::Done { code: 1 }));
    match action {
        Action::Fail { message } => {
            assert_eq!(message, "Error: No such file or directory".to_string());
        }
        _ => panic!("expected the run to fail"),
    }
}

#[test]
fn viewer_outcome_decides_the_exit_code() {
    let mut config = plain_config();
    config.open_firefox_profiler = true;
    let (state, _) = init(&config);
    let (state, action) =
        on_event(&config, state, Event::ViewerFinished(Ok(TermStatus::Exited(0))));
    assert!(matches!(state, State::Done { code: 0 }));
    assert!(matches!(action, Action::Finish));

    let (state2, _) = init(&config);
    let (state2, action2) =
        on_event(&config, state2, Event::ViewerFinished(Ok(TermStatus::Exited(4))));
    assert!(matches!(state2, State::Done { code: 1 }));
    match action2 {
        Action::Fail { message } => {
            assert_eq!(message, "Error: Cargo returned with exit code 4".to_string());
        }
        _ => panic!("expected the run to fail"),
    }
    let _ = state;
}

#[test]
fn append_outcome_decides_the_exit_code() {
    let mut config = plain_config();
    config.add = true;
    let (state, _) = init(&config);
    let (state, action) = on_event(&config, state, Event::AppendFinished(Ok(())));
    assert!(matches!(state, State::Done { code: 0 }));
    assert!(matches!(action, Action::Finish));

    let (state2, _) = init(&config);
    let (state2, action2) = on_event(
        &config,
        state2,
        Event::AppendFinished(Err("Permission denied".to_string())),
    );
    assert!(matches!(state2, State::Done { code: 1 }));
    match action2 {
        Action::Fail { message } => {
            assert_eq!(message, "Error: Permission denied".to_string());
        }
        _ => panic!("expected the run to fail"),
    }
    let _ = state;
}
