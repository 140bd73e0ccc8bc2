use rtk::options::RunOptions;
use rtk::runner::{Action, Event, OutputMode, Run, RunMode, StdinMode, Track};

fn step(run: Run<'_>, event: Event) -> (Run<'_>, Action) {
    match run.step(event) {
        Ok(pair) => pair,
        Err(_) => panic!("event rejected"),
    }
}

fn captured(exit_code: i32, raw: &str, stdout: &str, stderr: &str) -> Event {
    Event::Captured {
        exit_code,
        raw: raw.to_string(),
        raw_stdout: stdout.to_string(),
        raw_stderr: stderr.to_string(),
    }
}

fn expect_write(a: Action) -> (String, String) {
    match a {
        Action::Write { stdout, stderr } => (stdout, stderr),
        _ => panic!("expected a write"),
    }
}

fn expect_finish(a: Action) -> (Track, i32) {
    match a {
        Action::Finish { track, exit_code } => (track, exit_code),
        _ => panic!("expected finish"),
    }
}

fn measured(t: Track) -> (String, String, String, String) {
    match t {
        Track::Measured { original, rtk, input, output } => (original, rtk, input, output),
        _ => panic!("expected a measured track"),
    }
}

#[test]
fn filtered_run_shows_and_tracks_the_filtered_text() {
    let run = Run::new(RunMode::Filtered, "cargo", "test", RunOptions::default());
    let (run, a) = step(run, Event::Begin);
    assert!(matches!(a, Action::Spawn { stdin: StdinMode::Null, output: OutputMode::CaptureOnly }));
    let raw = "running 10 tests\n..........\nok\n";
    let (run, a) = step(run, captured(0, raw, raw, ""));
    match a {
        Action::Filter { text, exit_code } => {
            assert_eq!(text, raw);
            assert_eq!(exit_code, 0);
        }
        _ => panic!("expected filter"),
    }
    let (run, a) = step(run, Event::Filtered { text: "ok: 10 passed".to_string() });
    let (stdout, stderr) = expect_write(a);
    assert_eq!(stdout, "ok: 10 passed\n");
    assert_eq!(stderr, "");
    let (run, a) = step(run, Event::Written);
    let (track, code) = expect_finish(a);
    assert_eq!(code, 0);
    assert_eq!(measured(track), ("cargo test".to_string(), "rtk cargo test".to_string(), raw.to_string(), "ok: 10 passed".to_string()));
    assert!(run.step(Event::Written).is_err());
}

#[test]
fn filtered_run_never_shows_more_than_raw() {
    let run = Run::new(RunMode::FilteredWithExit, "git", "status", RunOptions::default().no_trailing_newline());
    let (run, _) = step(run, Event::Begin);
    let (run, _) = step(run, captured(0, "clean", "clean", ""));
    let (run, a) = step(run, Event::Filtered { text: "a much longer summary than the raw".to_string() });
    let (stdout, _) = expect_write(a);
    assert_eq!(stdout, "clean");
    let (_, a) = step(run, Event::Written);
    let (_, _, input, output) = measured(expect_finish(a).0);
    assert_eq!(input, "clean");
    assert_eq!(output, "clean");
}

#[test]
fn stdout_only_filters_and_tracks_stdout() {
    let run = Run::new(RunMode::Filtered, "ls", "-la", RunOptions::stdout_only().inherit_stdin());
    let (run, a) = step(run, Event::Begin);
    assert!(matches!(a, Action::Spawn { stdin: StdinMode::Inherit, output: OutputMode::CaptureOnly }));
    let (run, a) = step(run, captured(0, "out\nerr\n", "out\n", "err\n"));
    match a {
        Action::Filter { text, .. } => assert_eq!(text, "out\n"),
        _ => panic!("expected filter"),
    }
    let (run, _) = step(run, Event::Filtered { text: "o".to_string() });
    let (_, a) = step(run, Event::Written);
    let (_, _, input, output) = measured(expect_finish(a).0);
    assert_eq!(input, "out\n");
    assert_eq!(output, "o");
}

#[test]
fn failing_run_with_early_exit_echoes_raw_streams() {
    let run = Run::new(RunMode::Filtered, "npm", "test", RunOptions::default().early_exit_on_failure());
    let (run, _) = step(run, Event::Begin);
    let (run, a) = step(run, captured(2, "boom\n  \n", "boom\n", "  \n"));
    let (stdout, stderr) = expect_write(a);
    assert_eq!(stdout, "boom\n");
    assert_eq!(stderr, "");
    let (_, a) = step(run, Event::Written);
    let (track, code) = expect_finish(a);
    assert_eq!(code, 2);
    let (_, _, input, output) = measured(track);
    assert_eq!(input, "boom\n  \n");
    assert_eq!(output, "boom\n  \n");
}

#[test]
fn succeeding_run_with_early_exit_still_filters() {
    let run = Run::new(RunMode::Filtered, "npm", "test", RunOptions::default().early_exit_on_failure());
    let (run, _) = step(run, Event::Begin);
    let (_, a) = step(run, captured(0, "fine", "fine", ""));
    assert!(matches!(a, Action::Filter { .. }));
}

#[test]
fn teed_run_shows_the_hint_below_the_filtered_text() {
    let run = Run::new(RunMode::FilteredWithExit, "cargo", "test", RunOptions::with_tee("cargo_test").no_trailing_newline());
    let (run, _) = step(run, Event::Begin);
    let raw = "x".repeat(200);
    let (run, _) = step(run, captured(101, &raw, &raw, ""));
    let (run, a) = step(run, Event::Filtered { text: "1 failed".to_string() });
    match a {
        Action::Tee { raw: teed, label, exit_code } => {
            assert_eq!(teed, raw);
            assert_eq!(label, "cargo_test");
            assert_eq!(exit_code, 101);
        }
        _ => panic!("expected tee"),
    }
    let (run, a) = step(run, Event::Teed { hint: Some("[full output: t.log]".to_string()) });
    let (stdout, _) = expect_write(a);
    assert_eq!(stdout, "1 failed\n[full output: t.log]\n");
    let (_, a) = step(run, Event::Written);
    let (_, _, _, output) = measured(expect_finish(a).0);
    assert_eq!(output, "1 failed\n[full output: t.log]");
}

#[test]
fn teed_run_without_hint_shows_the_filtered_text() {
    let run = Run::new(RunMode::Filtered, "go", "test", RunOptions::with_tee("go_test"));
    let (run, _) = step(run, Event::Begin);
    let (run, _) = step(run, captured(0, "raw output text", "raw output text", ""));
    let (run, _) = step(run, Event::Filtered { text: "ok".to_string() });
    let (_, a) = step(run, Event::Teed { hint: None });
    assert_eq!(expect_write(a).0, "ok\n");
}

#[test]
fn streamed_run_tracks_what_the_stream_filter_showed() {
    let run = Run::new(RunMode::Streamed, "docker", "build .", RunOptions::default());
    let (run, a) = step(run, Event::Begin);
    assert!(matches!(a, Action::Spawn { stdin: StdinMode::Null, output: OutputMode::Streaming }));
    let (run, a) = step(run, Event::Streamed { exit_code: 0, raw: "lots".to_string(), filtered: "few".to_string() });
    let (track, code) = expect_finish(a);
    assert_eq!(code, 0);
    assert_eq!(measured(track), ("docker build .".to_string(), "rtk docker build .".to_string(), "lots".to_string(), "few".to_string()));
    assert!(run.step(Event::Begin).is_err());
}

#[test]
fn streamed_run_with_tee_prints_the_hint() {
    let run = Run::new(RunMode::Streamed, "make", "", RunOptions::with_tee("make"));
    let (run, _) = step(run, Event::Begin);
    let (run, a) = step(run, Event::Streamed { exit_code: 1, raw: "r".to_string(), filtered: "f".to_string() });
    assert!(matches!(a, Action::Tee { .. }));
    let (run, a) = step(run, Event::Teed { hint: Some("see log".to_string()) });
    assert_eq!(expect_write(a).0, "see log\n");
    let (_, a) = step(run, Event::Written);
    let (track, code) = expect_finish(a);
    assert_eq!(code, 1);
    assert_eq!(measured(track).3, "f");

    let run = Run::new(RunMode::Streamed, "make", "", RunOptions::with_tee("make"));
    let (run, _) = step(run, Event::Begin);
    let (run, _) = step(run, Event::Streamed { exit_code: 0, raw: "r".to_string(), filtered: "f".to_string() });
    let (_, a) = step(run, Event::Teed { hint: None });
    assert_eq!(expect_finish(a).1, 0);
}

#[test]
fn passthrough_run_inherits_stdin_and_is_tracked_by_label() {
    let run = Run::new(RunMode::Passthrough, "vim", "a.txt", RunOptions::default().rtk_command("edit"));
    let (run, a) = step(run, Event::Begin);
    assert!(matches!(a, Action::Spawn { stdin: StdinMode::Inherit, output: OutputMode::Passthrough }));
    let (_, a) = step(run, Event::PassedThrough { exit_code: 3 });
    let (track, code) = expect_finish(a);
    assert_eq!(code, 3);
    match track {
        Track::Passthrough { original, rtk } => {
            assert_eq!(original, "vim a.txt");
            assert_eq!(rtk, "rtk edit a.txt (passthrough)");
        }
        _ => panic!("expected passthrough track"),
    }
}

#[test]
fn events_that_do_not_fit_are_rejected() {
    let run = Run::new(RunMode::Filtered, "a", "b", RunOptions::default());
    let run = match run.step(Event::Written) {
        Err(run) => run,
        Ok(_) => panic!("accepted"),
    };
    let (run, _) = step(run, Event::Begin);
    let run = match run.step(Event::PassedThrough { exit_code: 0 }) {
        Err(run) => run,
        Ok(_) => panic!("accepted"),
    };
    let run = match run.step(Event::Streamed { exit_code: 0, raw: String::new(), filtered: String::new() }) {
        Err(run) => run,
        Ok(_) => panic!("accepted"),
    };
    let (_, a) = step(run, captured(0, "", "", ""));
    assert!(matches!(a, Action::Filter { .. }));
}

#[test]
fn streamed_run_forwards_stdin_when_asked() {
    let run = Run::new(RunMode::Streamed, "wc", "-l", RunOptions::default().inherit_stdin());
    let (run, a) = step(run, Event::Begin);
    assert!(matches!(a, Action::Spawn { stdin: StdinMode::Inherit, output: OutputMode::Streaming }));
    let (_, a) = step(run, Event::Streamed { exit_code: 0, raw: "3".to_string(), filtered: "3".to_string() });
    assert_eq!(expect_finish(a).1, 0);
}

#[test]
fn every_action_is_answered_in_step() {
    let opts = RunOptions::with_tee("t");
    let run = Run::new(RunMode::Filtered, "x", "y", opts);
    let (run, a) = step(run, Event::Begin);
    assert!(matches!(a, Action::Spawn { output: OutputMode::CaptureOnly, .. }));
    let (run, a) = step(run, captured(1, "r", "r", ""));
    assert!(matches!(a, Action::Filter { .. }));
    let (run, a) = step(run, Event::Filtered { text: String::new() });
    assert!(matches!(a, Action::Tee { .. }));
    let (run, a) = step(run, Event::Teed { hint: None });
    assert!(matches!(a, Action::Write { .. }));
    let (_, a) = step(run, Event::Written);
    assert!(matches!(a, Action::Finish { .. }));
}
