use check_engine::{
    alert_actions, classify, decimal_text, failure_block, pass_report, Action, AlertActions,
    Event, ExecutionResult, Phase, Scheduler, SpawnOutcome, DELAY_SECS, GRACE_SECS,
};

fn exited(code: Option<i32>, stdout: &str, stderr: &str) -> SpawnOutcome {
    SpawnOutcome::Exited {
        code,
        stdout: stdout.as_bytes().to_vec(),
        stderr: stderr.as_bytes().to_vec(),
    }
}

fn spawn_failed(error: &str) -> SpawnOutcome {
    SpawnOutcome::SpawnFailed { error: error.to_string() }
}

/// The artifact after one pass: replaced when the pass alerts, kept otherwise.
fn apply_pass(artifact: Option<String>, results: &Vec<ExecutionResult>) -> (Option<String>, bool) {
    match pass_report(results) {
        Some(report) => (Some(report), true),
        None => (artifact, false),
    }
}

#[test]
fn decimal_text_of_codes() {
    assert_eq!(decimal_text(0), "0");
    assert_eq!(decimal_text(3), "3");
    assert_eq!(decimal_text(255), "255");
    assert_eq!(decimal_text(1000), "1000");
    assert_eq!(decimal_text(-12), "-12");
    assert_eq!(decimal_text(i32::MAX), "2147483647");
    assert_eq!(decimal_text(i32::MIN), "-2147483648");
}

#[test]
fn exit_zero_is_success() {
    let r = classify("/checks/a".to_string(), exited(Some(0), "noise", "more noise"));
    assert_eq!(r, ExecutionResult::Success);
    assert!(r.is_success());
}

#[test]
fn nonzero_exit_keeps_streams() {
    let r = classify("/checks/b".to_string(), exited(Some(3), "X", "Y"));
    assert_eq!(
        r,
        ExecutionResult::NonZeroExit {
            path: "/checks/b".to_string(),
            code: Some(3),
            stdout: "X".to_string(),
            stderr: "Y".to_string(),
        }
    );
    assert!(!r.is_success());
}

#[test]
fn streams_are_decoded_lossily() {
    let outcome = SpawnOutcome::Exited {
        code: Some(2),
        stdout: vec![b'o', b'k', 0xff],
        stderr: vec![0xc3, 0xa9],
    };
    let r = classify("/p".to_string(), outcome);
    assert_eq!(
        r,
        ExecutionResult::NonZeroExit {
            path: "/p".to_string(),
            code: Some(2),
            stdout: "ok\u{fffd}".to_string(),
            stderr: "\u{e9}".to_string(),
        }
    );
}

#[test]
fn missing_exit_code_is_failure() {
    let r = classify("/checks/killed".to_string(), exited(None, "", "bye"));
    assert_eq!(
        r,
        ExecutionResult::NonZeroExit {
            path: "/checks/killed".to_string(),
            code: None,
            stdout: String::new(),
            stderr: "bye".to_string(),
        }
    );
    assert_eq!(
        failure_block(&r),
        "Check /checks/killed failed without an exit code:\n\nbye\n"
    );
}

#[test]
fn spawn_error_is_execution_failure() {
    let r = classify("/checks/c".to_string(), spawn_failed("Permission denied (os error 13)"));
    assert_eq!(
        r,
        ExecutionResult::ExecutionFailure {
            path: "/checks/c".to_string(),
            error: "Permission denied (os error 13)".to_string(),
        }
    );
    assert_eq!(
        failure_block(&r),
        "Check /checks/c failed to execute: Permission denied (os error 13)\n"
    );
}

#[test]
fn success_block_is_empty() {
    assert_eq!(failure_block(&ExecutionResult::Success), "");
}

#[test]
fn nonzero_block_holds_path_code_and_streams() {
    let r = classify("/checks/three".to_string(), exited(Some(3), "X", "Y"));
    let block = failure_block(&r);
    assert_eq!(block, "Check /checks/three failed with exit code 3:\nX\nY\n");
    assert!(block.contains("/checks/three"));
    assert!(block.contains("3"));
    assert!(block.contains("X"));
    assert!(block.contains("Y"));
}

#[test]
fn streams_are_kept_verbatim() {
    let r = classify("/s".to_string(), exited(Some(7), "  line one\nline two\n\n", "\terr  "));
    assert_eq!(
        failure_block(&r),
        "Check /s failed with exit code 7:\n  line one\nline two\n\n\n\terr  \n"
    );
}

#[test]
fn negative_code_block() {
    let r = classify("/w".to_string(), exited(Some(-1073741819), "", ""));
    assert_eq!(failure_block(&r), "Check /w failed with exit code -1073741819:\n\n\n");
}

#[test]
fn no_probes_alerts_no_checks_found() {
    let results: Vec<ExecutionResult> = Vec::new();
    assert_eq!(pass_report(&results), Some("No checks found".to_string()));
    let (artifact, wrote) = apply_pass(Some("stale".to_string()), &results);
    assert!(wrote);
    assert_eq!(artifact, Some("No checks found".to_string()));
}

#[test]
fn all_success_pass_is_silent() {
    let results = vec![
        classify("/a".to_string(), exited(Some(0), "", "")),
        classify("/b".to_string(), exited(Some(0), "fine", "")),
    ];
    assert_eq!(pass_report(&results), None);
}

#[test]
fn repeated_clean_passes_never_write() {
    let mut artifact = Some("old failure".to_string());
    for _ in 0..10 {
        let results = vec![
            classify("/a".to_string(), exited(Some(0), "", "")),
            classify("/b".to_string(), exited(Some(0), "", "")),
        ];
        let (next, wrote) = apply_pass(artifact, &results);
        assert!(!wrote);
        artifact = next;
    }
    assert_eq!(artifact, Some("old failure".to_string()));
}

#[test]
fn second_alert_overwrites_first() {
    let first = vec![classify("/a".to_string(), exited(Some(1), "R1", ""))];
    let second = vec![classify("/b".to_string(), exited(Some(2), "", "R2"))];
    let (artifact, wrote) = apply_pass(None, &first);
    assert!(wrote);
    assert_eq!(artifact, Some("Check /a failed with exit code 1:\nR1\n\n".to_string()));
    let (artifact, wrote) = apply_pass(artifact, &second);
    assert!(wrote);
    assert_eq!(artifact, Some("Check /b failed with exit code 2:\n\nR2\n".to_string()));
}

#[test]
fn spawn_error_does_not_stop_later_probes() {
    let results = vec![
        classify("/checks/first".to_string(), spawn_failed("No such file or directory")),
        classify("/checks/second".to_string(), exited(Some(0), "", "")),
        classify("/checks/third".to_string(), exited(Some(4), "out", "err")),
    ];
    let report = pass_report(&results).unwrap();
    assert_eq!(
        report,
        "Check /checks/first failed to execute: No such file or directory\n\
         Check /checks/third failed with exit code 4:\nout\nerr\n"
    );
}

#[test]
fn three_probe_scenario() {
    let results = vec![
        classify("/root/a".to_string(), exited(Some(0), "all good", "")),
        classify("/root/b".to_string(), exited(Some(1), "", "boom")),
        classify("/root/c".to_string(), spawn_failed("Permission denied (os error 13)")),
    ];
    let report = pass_report(&results).unwrap();
    assert_eq!(
        report,
        "Check /root/b failed with exit code 1:\n\nboom\n\
         Check /root/c failed to execute: Permission denied (os error 13)\n"
    );
    assert!(!report.contains("/root/a"));
}

#[test]
fn alert_on_terminal_has_banner() {
    let report = "Check /x failed to execute: nope\n".to_string();
    let actions = alert_actions(&report, true);
    assert_eq!(
        actions,
        AlertActions {
            artifact: report.clone(),
            console: Some(format!("\x1b[1;5;31;107m Check Engine! \x1b[0m\n{}", report)),
        }
    );
}

#[test]
fn alert_off_terminal_is_quiet() {
    let report = "No checks found".to_string();
    let actions = alert_actions(&report, false);
    assert_eq!(actions, AlertActions { artifact: report, console: None });
}

#[test]
fn loop_mode_waits_before_each_pass() {
    let mut s = Scheduler::new(true);
    assert_eq!(s.on_event(Event::Start), Some(Action::Sleep { secs: GRACE_SECS }));
    assert_eq!(GRACE_SECS, 5);
    assert_eq!(DELAY_SECS, 5);
    for round in 0..5 {
        assert_eq!(s.on_event(Event::SleepElapsed), Some(Action::RunPass));
        assert_eq!(s.phase, Phase::Running);
        let alerted = round % 2 == 0;
        assert_eq!(
            s.on_event(Event::PassFinished { alerted }),
            Some(Action::Sleep { secs: DELAY_SECS })
        );
        assert_eq!(s.phase, Phase::Waiting);
    }
}

#[test]
fn loop_mode_ignores_out_of_turn_events() {
    let mut s = Scheduler::new(true);
    assert_eq!(s.on_event(Event::SleepElapsed), None);
    assert_eq!(s.phase, Phase::Idle);
    assert_eq!(s.on_event(Event::Start), Some(Action::Sleep { secs: GRACE_SECS }));
    assert_eq!(s.on_event(Event::PassFinished { alerted: false }), None);
    assert_eq!(s.phase, Phase::Waiting);
}

#[test]
fn single_pass_runs_then_exits() {
    let mut s = Scheduler::new(false);
    assert_eq!(s.on_event(Event::Start), Some(Action::RunPass));
    assert_eq!(s.on_event(Event::PassFinished { alerted: false }), Some(Action::Exit { code: 0 }));
    assert_eq!(s.phase, Phase::Done);
    assert_eq!(s.on_event(Event::Start), None);
    assert_eq!(s.on_event(Event::SleepElapsed), None);

    let mut s = Scheduler::new(false);
    assert_eq!(s.on_event(Event::Start), Some(Action::RunPass));
    assert_eq!(s.on_event(Event::PassFinished { alerted: true }), Some(Action::Exit { code: 1 }));
}

#[test]
fn alert_for_this_process_writes_the_report() {
    let report = "Check /y failed with exit code 9:\n\n\n".to_string();
    let actions = check_engine::alert_actions_for_stdout(&report);
    assert_eq!(actions.artifact, report);
    if let Some(shown) = actions.console {
        assert_eq!(shown, format!("\x1b[1;5;31;107m Check Engine! \x1b[0m\n{}", report));
    }
}
