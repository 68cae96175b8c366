use std::sync::Arc;
use std::time::Duration;
use test_reporter::progress::{progress_bar_msg, update_progress_bar};
use test_reporter::{
    CancelReason, ExecutionResult, ProgressBarUpdate, RunStats, RunningState, RustTestSuite,
    ScriptId, SetupScriptExecuteStatus, Styles, TestEvent, TestEventKind, TestInstance,
};

fn stats(has_failure: bool) -> RunStats {
    RunStats {
        initial_run_count: 20,
        finished_count: 3,
        passed: 2,
        passed_slow: 0,
        flaky: 0,
        failed: 1,
        timed_out: 0,
        leaky: 0,
        exec_failed: 0,
        skipped: 4,
        has_failure,
    }
}

fn event(kind: TestEventKind<'_>) -> TestEvent<'_> {
    TestEvent { elapsed: Duration::ZERO, kind }
}

fn colored() -> Styles {
    let mut styles = Styles::default();
    styles.colorize();
    styles
}

#[test]
fn prefixes() {
    let plain = Styles::default();
    let good = stats(false);
    let bad = stats(true);
    assert_eq!(RunningState::new(None, &good).progress_bar_prefix(&plain), "     Running");
    assert_eq!(
        RunningState::new(Some(CancelReason::TestFailure), &good).progress_bar_prefix(&plain),
        "   Canceling"
    );
    let styles = colored();
    assert_eq!(
        RunningState::new(None, &good).progress_bar_prefix(&styles),
        "\u{1b}[32;1m     Running\u{1b}[0m"
    );
    assert_eq!(
        RunningState::new(None, &bad).progress_bar_prefix(&styles),
        "\u{1b}[31;1m     Running\u{1b}[0m"
    );
    assert_eq!(
        RunningState::new(Some(CancelReason::Signal), &good).progress_bar_prefix(&styles),
        "\u{1b}[31;1m   Canceling\u{1b}[0m"
    );
}

#[test]
fn messages() {
    assert_eq!(
        progress_bar_msg(&stats(true), 5, &Styles::default()),
        "5 running, 2 passed, 1 failed, 4 skipped"
    );
}

#[test]
fn bar_moves_with_tests() {
    let suite = RustTestSuite { binary_id: "b".to_owned(), test_count: 1 };
    let e = event(TestEventKind::TestStarted {
        test_instance: TestInstance { name: "t", suite_info: &suite },
        current_stats: stats(false),
        running: 1,
        cancel_state: Some(CancelReason::Interrupt),
    });
    match update_progress_bar(&e, &Styles::default()) {
        ProgressBarUpdate::Advance { prefix, message, length, position } => {
            assert_eq!(prefix, "   Canceling");
            assert_eq!(message, "1 running, 2 passed, 1 failed, 4 skipped");
            assert_eq!(length, 20);
            assert_eq!(position, 3);
        }
        _ => panic!("the bar moves"),
    }
}

#[test]
fn bar_hides_for_uncaptured_scripts() {
    let started = |no_capture: bool| {
        event(TestEventKind::SetupScriptStarted {
            index: 0,
            total: 1,
            script_id: ScriptId("s".to_owned()),
            command: "c",
            args: &[],
            no_capture,
        })
    };
    let styles = Styles::default();
    assert!(matches!(update_progress_bar(&started(true), &styles), ProgressBarUpdate::Hide));
    assert!(matches!(update_progress_bar(&started(false), &styles), ProgressBarUpdate::Unchanged));
}

#[test]
fn bar_shows_cancellation() {
    let e = event(TestEventKind::RunBeginCancel {
        setup_scripts_running: 0,
        running: 1,
        reason: CancelReason::ReportError,
    });
    match update_progress_bar(&e, &Styles::default()) {
        ProgressBarUpdate::SetPrefix(prefix) => assert_eq!(prefix, "   Canceling"),
        _ => panic!("the prefix changes"),
    }
    let e = event(TestEventKind::RunPaused { setup_scripts_running: 0, running: 1 });
    assert!(matches!(
        update_progress_bar(&e, &Styles::default()),
        ProgressBarUpdate::Unchanged
    ));
}

#[test]
fn bar_comes_back_after_uncaptured_scripts() {
    let finished = |no_capture: bool| {
        event(TestEventKind::SetupScriptFinished {
            index: 0,
            total: 1,
            script_id: ScriptId("s".to_owned()),
            command: "c",
            args: &[],
            no_capture,
            run_status: SetupScriptExecuteStatus {
                stdout: Arc::new(Vec::new()),
                stderr: Arc::new(Vec::new()),
                result: ExecutionResult::Pass,
            },
        })
    };
    let styles = Styles::default();
    assert!(matches!(update_progress_bar(&finished(true), &styles), ProgressBarUpdate::Show));
    assert!(matches!(
        update_progress_bar(&finished(false), &styles),
        ProgressBarUpdate::Unchanged
    ));
}
