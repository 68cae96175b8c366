use std::sync::Arc;
use std::time::{Duration, SystemTime};
use test_reporter::{
    AbortStatus, CancelReason, EventReport, ExecuteStatus, ExecutionDescription, ExecutionResult,
    ExecutionStatuses, FinalStatusLevel, MismatchReason, NextestProfile, ReporterStderr, RetryData,
    RunStats, RustTestSuite, ScriptId, SetupScriptExecuteStatus, StatusLevel, TestEvent,
    TestEventKind, TestInstance, TestList, TestOutputDisplay, TestReporter, TestReporterBuilder,
    TimeSpan,
};

fn span(secs: u64, millis: u32) -> TimeSpan {
    let duration = Duration::new(secs, millis * 1_000_000);
    TimeSpan {
        secs,
        subsec_nanos: millis * 1_000_000,
        seconds_text: format!("{:.3?}", duration.as_secs_f64()),
    }
}

fn suite(binary_id: &str) -> RustTestSuite {
    RustTestSuite { binary_id: binary_id.to_owned(), test_count: 1 }
}

fn list(suites: Vec<RustTestSuite>) -> TestList {
    TestList { suites, test_count: 3, run_count: 2, skip_count: 1, binary_count: 1 }
}

fn instance<'a>(suite_info: &'a RustTestSuite, name: &'a str) -> TestInstance<'a> {
    TestInstance { name, suite_info }
}

fn status(result: ExecutionResult, attempt: usize, total_attempts: usize) -> ExecuteStatus {
    ExecuteStatus {
        retry_data: RetryData { attempt, total_attempts },
        stdout: Arc::new(b"out\n".to_vec()),
        stderr: Arc::new(b"\x1b[31merr\x1b[0m\n".to_vec()),
        result,
        time_taken: span(1, 234),
        is_slow: false,
    }
}

fn fail() -> ExecutionResult {
    ExecutionResult::Fail { abort_status: None, leaked: false }
}

fn passed() -> ExecutionStatuses {
    ExecutionStatuses {
        description: ExecutionDescription::Success,
        status_level: StatusLevel::Pass,
        final_status_level: FinalStatusLevel::Pass,
        last_status: status(ExecutionResult::Pass, 1, 1),
    }
}

fn failed() -> ExecutionStatuses {
    ExecutionStatuses {
        description: ExecutionDescription::Failure,
        status_level: StatusLevel::Fail,
        final_status_level: FinalStatusLevel::Fail,
        last_status: status(fail(), 1, 1),
    }
}

fn flaky() -> ExecutionStatuses {
    ExecutionStatuses {
        description: ExecutionDescription::Flaky,
        status_level: StatusLevel::Retry,
        final_status_level: FinalStatusLevel::Flaky,
        last_status: status(ExecutionResult::Pass, 2, 3),
    }
}

fn stats() -> RunStats {
    RunStats {
        initial_run_count: 2,
        finished_count: 2,
        passed: 2,
        passed_slow: 0,
        flaky: 0,
        failed: 0,
        timed_out: 0,
        leaky: 0,
        exec_failed: 0,
        skipped: 1,
        has_failure: false,
    }
}

fn event(kind: TestEventKind<'_>) -> TestEvent<'_> {
    TestEvent { elapsed: Duration::from_millis(5), kind }
}

fn finished<'a>(
    test_instance: TestInstance<'a>,
    run_statuses: ExecutionStatuses,
    success_output: TestOutputDisplay,
    failure_output: TestOutputDisplay,
) -> TestEvent<'a> {
    event(TestEventKind::TestFinished {
        test_instance,
        success_output,
        failure_output,
        junit_store_success_output: false,
        junit_store_failure_output: true,
        run_statuses,
        current_stats: stats(),
        running: 0,
        cancel_state: None,
    })
}

fn run_finished<'a>(run_stats: RunStats) -> TestEvent<'a> {
    event(TestEventKind::RunFinished {
        run_id: uuid::Uuid::nil(),
        start_time: SystemTime::UNIX_EPOCH,
        elapsed: span(12, 345),
        run_stats,
    })
}

/// Reports the events to a buffer and returns what is in it.
fn report(
    level: StatusLevel,
    final_level: FinalStatusLevel,
    no_capture: bool,
    color: bool,
    binary_id: &str,
    events: &[TestEvent<'_>],
) -> String {
    let test_list = list(vec![suite(binary_id)]);
    let profile = NextestProfile { status_level: level, final_status_level: final_level };
    let mut builder = TestReporterBuilder::default();
    builder.set_no_capture(no_capture);
    let mut buf: Vec<u8> = Vec::new();
    {
        let mut reporter: TestReporter<'_> =
            builder.build_for(&test_list, &profile, ReporterStderr::Buffer(&mut buf), false);
        if color {
            reporter.colorize();
        }
        for e in events {
            assert!(reporter.inner.accepts(e));
            assert!(matches!(reporter.report_event(e), EventReport::ToBuffer));
        }
    }
    String::from_utf8(buf).unwrap()
}

fn plain(level: StatusLevel, final_level: FinalStatusLevel, events: &[TestEvent<'_>]) -> String {
    report(level, final_level, false, false, "my-bin", events)
}

#[test]
fn run_started() {
    let test_list = list(Vec::new());
    let e = event(TestEventKind::RunStarted { test_list: &test_list, run_id: uuid::Uuid::nil() });
    assert_eq!(
        plain(StatusLevel::NoOutput, FinalStatusLevel::NoOutput, &[e.clone()]),
        "    Starting 2 tests across 1 binary (1 skipped)\n"
    );
    let test_list = TestList { run_count: 1, skip_count: 0, binary_count: 3, ..list(Vec::new()) };
    let e2 = event(TestEventKind::RunStarted { test_list: &test_list, run_id: uuid::Uuid::nil() });
    assert_eq!(
        plain(StatusLevel::Pass, FinalStatusLevel::NoOutput, &[e2]),
        "    Starting 1 test across 3 binaries\n"
    );
    assert_eq!(
        report(StatusLevel::Pass, FinalStatusLevel::NoOutput, false, true, "b", &[e]),
        "\u{1b}[32;1m    Starting\u{1b}[0m \u{1b}[1m2\u{1b}[0m tests across \
         \u{1b}[1m1\u{1b}[0m binary (\u{1b}[1m1\u{1b}[0m skipped)\n"
    );
}

fn script_args() -> Vec<String> {
    vec!["--name".to_owned(), "two words".to_owned()]
}

#[test]
fn setup_scripts() {
    let args = script_args();
    let started = |index: usize| {
        event(TestEventKind::SetupScriptStarted {
            index,
            total: 2,
            script_id: ScriptId("db".to_owned()),
            command: "./setup.sh",
            args: &args,
            no_capture: false,
        })
    };
    assert_eq!(
        plain(StatusLevel::Fail, FinalStatusLevel::Fail, &[started(0), started(1)]),
        "       SETUP [      1/2] db: ./setup.sh --name 'two words'\n       \
         SETUP [      2/2] db: ./setup.sh --name 'two words'\n"
    );
    assert_eq!(
        report(StatusLevel::Fail, FinalStatusLevel::Fail, false, true, "b", &[started(0)]),
        "\u{1b}[32;1m       SETUP\u{1b}[0m [      1/2] \u{1b}[34;1mdb\u{1b}[0m: ./setup.sh --name 'two words'\n"
    );

    let slow = |will_terminate: bool| {
        event(TestEventKind::SetupScriptSlow {
            script_id: ScriptId("db".to_owned()),
            command: "./setup.sh",
            args: &[],
            elapsed: span(60, 0),
            will_terminate,
        })
    };
    assert_eq!(
        plain(StatusLevel::Slow, FinalStatusLevel::Fail, &[slow(false)]),
        "  SETUP SLOW [> 60.000s] db: ./setup.sh\n"
    );
    assert_eq!(
        plain(StatusLevel::Retry, FinalStatusLevel::Fail, &[slow(false)]),
        "[> 60.000s] db: ./setup.sh\n"
    );
    assert_eq!(
        plain(StatusLevel::NoOutput, FinalStatusLevel::Fail, &[slow(true)]),
        " TERMINATING [> 60.000s] db: ./setup.sh\n"
    );
}

#[test]
fn setup_scripts_finished() {
    let args = script_args();
    let done = |result: ExecutionResult| {
        event(TestEventKind::SetupScriptFinished {
            index: 9,
            total: 12,
            script_id: ScriptId("db".to_owned()),
            command: "cargo",
            args: &args[..1],
            no_capture: false,
            run_status: SetupScriptExecuteStatus {
                stdout: Arc::new(b"out".to_vec()),
                stderr: Arc::new(b"err\n".to_vec()),
                result,
            },
        })
    };
    let level = StatusLevel::NoOutput;
    let final_level = FinalStatusLevel::NoOutput;
    assert_eq!(
        plain(level, final_level, &[done(ExecutionResult::Pass)]),
        "  SETUP PASS [    10/12] db: cargo --name\n"
    );
    assert_eq!(
        plain(level, final_level, &[done(ExecutionResult::Leak)]),
        "  SETUP LEAK [    10/12] db: cargo --name\n"
    );
    let output = "\n--- STDOUT:              db: cargo --name ---\nout\
                  \n--- STDERR:              db: cargo --name ---\nerr\n\n";
    assert_eq!(
        plain(level, final_level, &[done(fail())]),
        format!("  SETUP FAIL [    10/12] db: cargo --name\n{}", output)
    );
    assert_eq!(
        plain(level, final_level, &[done(ExecutionResult::Timeout)]),
        format!("   SETUP TMT [    10/12] db: cargo --name\n{}", output)
    );
}

#[test]
fn setup_script_numbers_must_fit() {
    let reporter = TestReporterBuilder::default().build_for(
        &list(Vec::new()),
        &NextestProfile {
            status_level: StatusLevel::Pass,
            final_status_level: FinalStatusLevel::Fail,
        },
        ReporterStderr::Terminal,
        true,
    );
    let started = |index: usize| {
        event(TestEventKind::SetupScriptStarted {
            index,
            total: 1,
            script_id: ScriptId("db".to_owned()),
            command: "c",
            args: &[],
            no_capture: false,
        })
    };
    assert!(reporter.inner.accepts(&started(usize::MAX - 1)));
    assert!(!reporter.inner.accepts(&started(usize::MAX)));
}

#[test]
fn test_started() {
    let s = suite("my-bin");
    let e = event(TestEventKind::TestStarted {
        test_instance: instance(&s, "m::n::t"),
        current_stats: stats(),
        running: 1,
        cancel_state: None,
    });
    assert_eq!(plain(StatusLevel::All, FinalStatusLevel::All, &[e.clone()]), "");
    assert_eq!(
        report(StatusLevel::Fail, FinalStatusLevel::Fail, true, false, "longer-bin", &[e.clone()]),
        "       START                 my-bin m::n::t\n"
    );
    assert_eq!(
        report(StatusLevel::Fail, FinalStatusLevel::Fail, true, true, "my-bin", &[e]),
        "\u{1b}[32;1m       START\u{1b}[0m             \u{1b}[35;1mmy-bin\u{1b}[0m \
         \u{1b}[36mm::n\u{1b}[0m\u{1b}[36m::\u{1b}[0m\u{1b}[34;1mt\u{1b}[0m\n"
    );
}

#[test]
fn test_slow() {
    let s = suite("my-bin");
    let slow = |attempt: usize, total_attempts: usize, will_terminate: bool| {
        event(TestEventKind::TestSlow {
            test_instance: instance(&s, "t"),
            retry_data: RetryData { attempt, total_attempts },
            elapsed: span(60, 5),
            will_terminate,
        })
    };
    let show = |level: StatusLevel, e: TestEvent<'_>| plain(level, FinalStatusLevel::Fail, &[e]);
    let rest = "[> 60.005s] my-bin t\n";
    assert_eq!(show(StatusLevel::Slow, slow(1, 1, false)), format!("        SLOW {}", rest));
    assert_eq!(show(StatusLevel::Slow, slow(2, 3, false)), format!("  TRY 2 SLOW {}", rest));
    // Below the level for slow tests, a slow test that goes on is not shown.
    for level in [StatusLevel::NoOutput, StatusLevel::Fail, StatusLevel::Retry] {
        assert_eq!(show(level, slow(1, 1, false)), "");
        assert_eq!(show(level, slow(2, 3, false)), "");
    }
    // A test about to be terminated is shown from the level for failures on, or from that for
    // retries on if it is retried.
    assert_eq!(show(StatusLevel::NoOutput, slow(1, 1, true)), "");
    assert_eq!(show(StatusLevel::NoOutput, slow(2, 3, true)), "");
    assert_eq!(show(StatusLevel::NoOutput, slow(3, 3, true)), "");
    assert_eq!(show(StatusLevel::Fail, slow(2, 3, true)), "");
    assert_eq!(show(StatusLevel::Fail, slow(1, 1, true)), format!(" TERMINATING {}", rest));
    assert_eq!(show(StatusLevel::All, slow(1, 1, true)), format!(" TERMINATING {}", rest));
    // For the number of the last attempt, the level has to be above that for failures.
    assert_eq!(show(StatusLevel::Fail, slow(3, 3, true)), format!(" TERMINATING {}", rest));
    assert_eq!(show(StatusLevel::Retry, slow(3, 3, true)), format!("TRY 3 TRMNTG {}", rest));
    // For that of an earlier one, it has to be above that for retries.
    assert_eq!(show(StatusLevel::Retry, slow(2, 3, true)), format!(" TERMINATING {}", rest));
    assert_eq!(show(StatusLevel::Slow, slow(2, 3, true)), format!("TRY 2 TRMNTG {}", rest));
    assert_eq!(
        report(
            StatusLevel::Slow,
            FinalStatusLevel::Fail,
            false,
            true,
            "my-bin",
            &[slow(2, 3, true), slow(3, 3, true)]
        ),
        "\u{1b}[35;1mTRY 2 TRMNTG\u{1b}[0m [> 60.005s] \u{1b}[35;1mmy-bin\u{1b}[0m \u{1b}[34;1mt\u{1b}[0m\n\
         \u{1b}[31;1mTRY 3 TRMNTG\u{1b}[0m [> 60.005s] \u{1b}[35;1mmy-bin\u{1b}[0m \u{1b}[34;1mt\u{1b}[0m\n"
    );
}

#[test]
fn attempt_failed() {
    let s = suite("my-bin");
    let failed_attempt = |delay: TimeSpan, failure_output: TestOutputDisplay| {
        event(TestEventKind::TestAttemptFailedWillRetry {
            test_instance: instance(&s, "t"),
            run_status: status(fail(), 1, 3),
            delay_before_next_attempt: delay,
            failure_output,
        })
    };
    let level = StatusLevel::Retry;
    let final_level = FinalStatusLevel::All;
    assert_eq!(
        plain(level, final_level, &[failed_attempt(span(0, 0), TestOutputDisplay::Final)]),
        "  TRY 1 FAIL [   1.234s] my-bin t\n"
    );
    assert_eq!(
        plain(level, final_level, &[failed_attempt(span(2, 500), TestOutputDisplay::Never)]),
        "  TRY 1 FAIL [   1.234s] my-bin t\n   DELAY 2/3 by   2.500s my-bin t\n"
    );
    assert_eq!(
        plain(level, final_level, &[failed_attempt(span(0, 1), TestOutputDisplay::Immediate)]),
        "  TRY 1 FAIL [   1.234s] my-bin t\n\
         \n--- TRY 1 STDOUT:        my-bin t ---\nout\n\
         \n--- TRY 1 STDERR:        my-bin t ---\nerr\n\
         \n   DELAY 2/3 by   0.001s my-bin t\n"
    );
    // Below the level for retries nothing is shown, and nothing is kept at any level.
    assert_eq!(
        plain(
            StatusLevel::Fail,
            final_level,
            &[failed_attempt(span(1, 0), TestOutputDisplay::ImmediateFinal), run_finished(stats())]
        ),
        "------------\n     Summary [  12.345s] 2 tests run: 2 passed, 1 skipped\n"
    );
}

#[test]
fn attempts_that_cannot_be_taken_in() {
    let s = suite("my-bin");
    let attempt = |result: ExecutionResult, attempt: usize, delay: TimeSpan| {
        event(TestEventKind::TestAttemptFailedWillRetry {
            test_instance: instance(&s, "t"),
            run_status: status(result, attempt, usize::MAX),
            delay_before_next_attempt: delay,
            failure_output: TestOutputDisplay::Never,
        })
    };
    let build = |level: StatusLevel| {
        TestReporterBuilder::default().build_for(
            &list(Vec::new()),
            &NextestProfile { status_level: level, final_status_level: FinalStatusLevel::Fail },
            ReporterStderr::Terminal,
            true,
        )
    };
    let shown = build(StatusLevel::Retry);
    let hidden = build(StatusLevel::Fail);
    // Only failing tests are retried.
    assert!(!shown.inner.accepts(&attempt(ExecutionResult::Pass, 1, span(0, 0))));
    assert!(hidden.inner.accepts(&attempt(ExecutionResult::Pass, 1, span(0, 0))));
    // The next attempt has to have a number.
    assert!(shown.inner.accepts(&attempt(fail(), usize::MAX, span(0, 0))));
    assert!(!shown.inner.accepts(&attempt(fail(), usize::MAX, span(1, 0))));
}

#[test]
fn attempt_numbers_must_fit_in_headers() {
    let s = suite("my-bin");
    let build = || {
        TestReporterBuilder::default().build_for(
            &list(Vec::new()),
            &NextestProfile {
                status_level: StatusLevel::All,
                final_status_level: FinalStatusLevel::Fail,
            },
            ReporterStderr::Terminal,
            true,
        )
    };
    let done = |attempt: usize, display: TestOutputDisplay| {
        let mut statuses = failed();
        statuses.last_status.retry_data = RetryData { attempt, total_attempts: usize::MAX };
        finished(instance(&s, "t"), statuses, display, display)
    };
    let mut reporter = build();
    assert!(reporter.inner.accepts(&done(9_999_999_999_999_999, TestOutputDisplay::Immediate)));
    assert!(!reporter.inner.accepts(&done(10_000_000_000_000_000, TestOutputDisplay::Immediate)));
    // Output that is not shown right away does not matter until the run ends.
    let late = done(10_000_000_000_000_000, TestOutputDisplay::Final);
    assert!(reporter.inner.accepts(&late));
    assert!(reporter.inner.accepts(&run_finished(stats())));
    let _ = reporter.report_event(&late);
    assert!(!reporter.inner.accepts(&run_finished(stats())));
}

#[test]
fn retry_started() {
    let s = suite("my-bin");
    let e = event(TestEventKind::TestRetryStarted {
        test_instance: instance(&s, "t"),
        retry_data: RetryData { attempt: 2, total_attempts: 3 },
    });
    for level in [StatusLevel::Retry, StatusLevel::Slow, StatusLevel::All] {
        assert_eq!(
            plain(level, FinalStatusLevel::NoOutput, &[e.clone()]),
            "   RETRY 2/3 [         ] my-bin t\n"
        );
    }
    // Below the level for retries, they are not shown.
    for level in [StatusLevel::NoOutput, StatusLevel::Fail] {
        assert_eq!(plain(level, FinalStatusLevel::All, &[e.clone()]), "");
    }
}

#[test]
fn test_finished_lines() {
    let s = suite("my-bin");
    let show = |level: StatusLevel, statuses: ExecutionStatuses| {
        plain(
            level,
            FinalStatusLevel::NoOutput,
            &[finished(
                instance(&s, "t"),
                statuses,
                TestOutputDisplay::Never,
                TestOutputDisplay::Never,
            )],
        )
    };
    assert_eq!(show(StatusLevel::Pass, passed()), "        PASS [   1.234s] my-bin t\n");
    assert_eq!(show(StatusLevel::Leak, passed()), "");
    let mut leaky = passed();
    leaky.status_level = StatusLevel::Leak;
    leaky.last_status.result = ExecutionResult::Leak;
    leaky.last_status.is_slow = true;
    assert_eq!(show(StatusLevel::Leak, leaky), "        LEAK [   1.234s] my-bin t\n");
    assert_eq!(show(StatusLevel::Retry, flaky()), "  TRY 2 PASS [   1.234s] my-bin t\n");
    assert_eq!(show(StatusLevel::Fail, failed()), "        FAIL [   1.234s] my-bin t\n");
    assert_eq!(show(StatusLevel::NoOutput, failed()), "");
    let mut timeout = failed();
    timeout.last_status = status(ExecutionResult::Timeout, 3, 3);
    assert_eq!(show(StatusLevel::Fail, timeout), "   TRY 3 TMT [   1.234s] my-bin t\n");
    let mut killed = failed();
    killed.last_status.result = ExecutionResult::Fail {
        abort_status: Some(AbortStatus::UnixSignal { number: 9, name: Some("KILL") }),
        leaked: false,
    };
    assert_eq!(show(StatusLevel::Fail, killed), "     SIGKILL [   1.234s] my-bin t\n");
    let mut aborted = failed();
    aborted.last_status.result = ExecutionResult::Fail {
        abort_status: Some(AbortStatus::WindowsNtStatus {
            message: "0xc0000005: Access violation".to_owned(),
        }),
        leaked: false,
    };
    assert_eq!(
        show(StatusLevel::Fail, aborted),
        "       ABORT [   1.234s] my-bin t\n     Message [         ] code 0xc0000005: Access violation\n"
    );
}

#[test]
fn immediate_output() {
    let s = suite("my-bin");
    let e = finished(
        instance(&s, "t"),
        failed(),
        TestOutputDisplay::Never,
        TestOutputDisplay::Immediate,
    );
    // Without colors, escape sequences are taken out.
    assert_eq!(
        plain(StatusLevel::Fail, FinalStatusLevel::NoOutput, &[e.clone()]),
        "        FAIL [   1.234s] my-bin t\n\
         \n--- STDOUT:              my-bin t ---\nout\n\
         \n--- STDERR:              my-bin t ---\nerr\n\n"
    );
    // With colors, they are kept, and a reset follows.
    assert_eq!(
        report(StatusLevel::Fail, FinalStatusLevel::NoOutput, false, true, "my-bin", &[e]),
        "\u{1b}[31;1m        FAIL\u{1b}[0m [   1.234s] \u{1b}[35;1mmy-bin\u{1b}[0m \u{1b}[34;1mt\u{1b}[0m\n\
         \n\u{1b}[31;1m--- \u{1b}[0m\u{1b}[31;1mSTDOUT:              \u{1b}[0m\
         \u{1b}[35;1mmy-bin\u{1b}[0m \u{1b}[34;1mt\u{1b}[0m\u{1b}[31;1m ---\u{1b}[0m\nout\n\u{1b}[0m\
         \n\u{1b}[31;1m--- \u{1b}[0m\u{1b}[31;1mSTDERR:              \u{1b}[0m\
         \u{1b}[35;1mmy-bin\u{1b}[0m \u{1b}[34;1mt\u{1b}[0m\u{1b}[31;1m ---\u{1b}[0m\n\
         \u{1b}[31merr\u{1b}[0m\n\u{1b}[0m\n"
    );
}

#[test]
fn success_and_failure_outputs_are_told_apart() {
    let s = suite("my-bin");
    let show = |statuses: ExecutionStatuses| {
        plain(
            StatusLevel::All,
            FinalStatusLevel::NoOutput,
            &[finished(
                instance(&s, "t"),
                statuses,
                TestOutputDisplay::Immediate,
                TestOutputDisplay::Never,
            )],
        )
    };
    assert!(show(passed()).contains("STDOUT:"));
    assert!(!show(failed()).contains("STDOUT:"));
}

#[test]
fn empty_output_leaves_a_blank_line() {
    let s = suite("my-bin");
    let mut statuses = failed();
    statuses.last_status.stdout = Arc::new(Vec::new());
    statuses.last_status.stderr = Arc::new(Vec::new());
    let e = finished(
        instance(&s, "t"),
        statuses,
        TestOutputDisplay::Immediate,
        TestOutputDisplay::Immediate,
    );
    assert_eq!(
        plain(StatusLevel::Fail, FinalStatusLevel::NoOutput, &[e]),
        "        FAIL [   1.234s] my-bin t\n\n"
    );
}

#[test]
fn skipped_tests() {
    let s = suite("my-bin");
    let e = event(TestEventKind::TestSkipped {
        test_instance: instance(&s, "t"),
        reason: MismatchReason::Ignored,
    });
    assert_eq!(
        plain(StatusLevel::Skip, FinalStatusLevel::Fail, &[e.clone()]),
        "        SKIP [         ] my-bin t\n"
    );
    assert_eq!(plain(StatusLevel::Pass, FinalStatusLevel::Fail, &[e.clone()]), "");
    assert_eq!(
        plain(StatusLevel::Pass, FinalStatusLevel::Skip, &[e.clone(), run_finished(stats())]),
        "------------\n     Summary [  12.345s] 2 tests run: 2 passed, 1 skipped\n        \
         SKIP [         ] my-bin t\n"
    );
    assert_eq!(
        plain(StatusLevel::Pass, FinalStatusLevel::Slow, &[e, run_finished(stats())]),
        "------------\n     Summary [  12.345s] 2 tests run: 2 passed, 1 skipped\n"
    );
}

fn cancel<'a>(reason: CancelReason, scripts: usize, running: usize) -> TestEvent<'a> {
    event(TestEventKind::RunBeginCancel { setup_scripts_running: scripts, running, reason })
}

#[test]
fn run_control() {
    let level = StatusLevel::NoOutput;
    let final_level = FinalStatusLevel::NoOutput;
    assert_eq!(
        plain(
            level,
            final_level,
            &[
                cancel(CancelReason::SetupScriptFailure, 1, 0),
                cancel(CancelReason::TestFailure, 0, 2),
                cancel(CancelReason::ReportError, 3, 2),
                cancel(CancelReason::Signal, 0, 1),
                cancel(CancelReason::Interrupt, 0, 0),
            ]
        ),
        "   Canceling due to setup script failure: 1 setup script still running\n   \
         Canceling due to test failure: 2 tests still running\n   \
         Canceling due to error: 3 setup scripts still running\n   \
         Canceling due to signal: 1 test still running\n   \
         Canceling due to interrupt\n"
    );
    assert_eq!(
        plain(
            level,
            final_level,
            &[
                event(TestEventKind::RunPaused { setup_scripts_running: 0, running: 2 }),
                event(TestEventKind::RunContinued { setup_scripts_running: 1, running: 0 }),
                event(TestEventKind::RunPaused { setup_scripts_running: 0, running: 0 }),
            ]
        ),
        "     Pausing due to signal: 2 tests running\n  \
         Continuing due to signal: 1 setup script running\n     \
         Pausing due to signal\n"
    );
    assert_eq!(
        report(
            level,
            final_level,
            false,
            true,
            "b",
            &[
                cancel(CancelReason::Signal, 0, 1),
                event(TestEventKind::RunPaused { setup_scripts_running: 0, running: 0 }),
            ]
        ),
        "\u{1b}[31;1m   Canceling\u{1b}[0m due to \u{1b}[31;1msignal\u{1b}[0m: \u{1b}[1m1\u{1b}[0m test still running\n\
         \u{1b}[32;1m     Pausing\u{1b}[0m due to \u{1b}[1msignal\u{1b}[0m\n"
    );
}

#[test]
fn run_finished_summaries() {
    let show = |run_stats: RunStats| {
        plain(StatusLevel::Pass, FinalStatusLevel::Fail, &[run_finished(run_stats)])
    };
    assert_eq!(
        show(RunStats { initial_run_count: 1, finished_count: 1, passed: 1, ..stats() }),
        "------------\n     Summary [  12.345s] 1 test run: 1 passed, 1 skipped\n"
    );
    assert_eq!(
        show(RunStats { initial_run_count: 5, finished_count: 1, passed: 1, ..stats() }),
        "------------\n     Summary [  12.345s] 1/5 tests run: 1 passed, 1 skipped\n"
    );
    let failing = RunStats { has_failure: true, failed: 1, passed: 1, ..stats() };
    assert_eq!(
        report(
            StatusLevel::Pass,
            FinalStatusLevel::Fail,
            false,
            true,
            "b",
            &[run_finished(failing)]
        ),
        "------------\n\u{1b}[31;1m     Summary\u{1b}[0m [  12.345s] \u{1b}[1m2\u{1b}[0m tests run: \
         \u{1b}[1m1\u{1b}[0m \u{1b}[32;1mpassed\u{1b}[0m, \u{1b}[1m1\u{1b}[0m \u{1b}[31;1mfailed\u{1b}[0m, \
         \u{1b}[1m1\u{1b}[0m \u{1b}[33;1mskipped\u{1b}[0m\n"
    );
}

#[test]
fn final_outputs_are_sorted() {
    let a = suite("bin-a");
    let b = suite("bin-b");
    let never = TestOutputDisplay::Never;
    let mut slow = passed();
    slow.final_status_level = FinalStatusLevel::Slow;
    slow.last_status.is_slow = true;
    let mut slow_leak = slow.clone();
    slow_leak.last_status.result = ExecutionResult::Leak;
    let mut leak = passed();
    leak.final_status_level = FinalStatusLevel::Leak;
    leak.last_status.result = ExecutionResult::Leak;
    let events = vec![
        finished(instance(&b, "fails"), failed(), never, never),
        finished(instance(&a, "z"), passed(), never, never),
        finished(instance(&a, "fails"), failed(), never, never),
        finished(instance(&a, "b"), flaky(), never, never),
        finished(instance(&a, "slow"), slow, never, never),
        finished(instance(&a, "slow-leak"), slow_leak, never, never),
        event(TestEventKind::TestSkipped {
            test_instance: instance(&b, "skipped"),
            reason: MismatchReason::Expression,
        }),
        finished(instance(&b, "leaks"), leak, never, never),
        finished(instance(&a, "Z"), passed(), never, never),
        run_finished(stats()),
    ];
    assert_eq!(
        report(StatusLevel::NoOutput, FinalStatusLevel::All, false, false, "bin-a", &events),
        "------------\n     Summary [  12.345s] 2 tests run: 2 passed, 1 skipped\n        \
         PASS [   1.234s] bin-a Z\n        \
         PASS [   1.234s] bin-a z\n        \
         LEAK [   1.234s] bin-b leaks\n        \
         SKIP [         ] bin-b skipped\n        \
         SLOW [   1.234s] bin-a slow\n \
         SLOW + LEAK [   1.234s] bin-a slow-leak\n   \
         FLAKY 2/3 [   1.234s] bin-a b\n        \
         FAIL [   1.234s] bin-a fails\n        \
         FAIL [   1.234s] bin-b fails\n"
    );
}

#[test]
fn equal_entries_stay_in_order() {
    let s = suite("bin");
    let never = TestOutputDisplay::Never;
    let mut events = Vec::new();
    for i in 0..7u32 {
        let mut statuses = failed();
        statuses.last_status.time_taken = span(0, i);
        events.push(finished(instance(&s, "same"), statuses, never, never));
    }
    events.push(run_finished(stats()));
    let shown = report(StatusLevel::NoOutput, FinalStatusLevel::Fail, false, false, "bin", &events);
    let expected: String = (0..7u32)
        .map(|i| format!("        FAIL [   0.00{}s] bin same\n", i))
        .collect();
    assert_eq!(
        shown,
        format!(
            "------------\n     Summary [  12.345s] 2 tests run: 2 passed, 1 skipped\n{}",
            expected
        )
    );
}

#[test]
fn final_output_is_shown_whatever_the_level() {
    let s = suite("my-bin");
    let events = [
        finished(
            instance(&s, "t"),
            passed(),
            TestOutputDisplay::ImmediateFinal,
            TestOutputDisplay::Never,
        ),
        run_finished(stats()),
    ];
    assert_eq!(
        plain(StatusLevel::Fail, FinalStatusLevel::Fail, &events),
        "------------\n     Summary [  12.345s] 2 tests run: 2 passed, 1 skipped\n        \
         PASS [   1.234s] my-bin t\n\
         \n--- STDOUT:              my-bin t ---\nout\n\
         \n--- STDERR:              my-bin t ---\nerr\n\n"
    );
}

#[test]
fn no_test_output_after_a_signal() {
    let s = suite("my-bin");
    let done = || {
        finished(
            instance(&s, "t"),
            failed(),
            TestOutputDisplay::ImmediateFinal,
            TestOutputDisplay::ImmediateFinal,
        )
    };
    for reason in [CancelReason::Signal, CancelReason::Interrupt] {
        let shown = plain(
            StatusLevel::All,
            FinalStatusLevel::All,
            // A less severe reason afterwards changes nothing.
            &[
                cancel(reason, 0, 1),
                cancel(CancelReason::TestFailure, 0, 1),
                done(),
                run_finished(stats()),
            ],
        );
        assert!(shown.ends_with(
            "        FAIL [   1.234s] my-bin t\n------------\n     \
             Summary [  12.345s] 2 tests run: 2 passed, 1 skipped\n"
        ));
    }
    let shown = plain(
        StatusLevel::All,
        FinalStatusLevel::All,
        &[cancel(CancelReason::ReportError, 0, 1), done(), run_finished(stats())],
    );
    assert_eq!(shown.matches("STDOUT:").count(), 2);
}

#[test]
fn tests_are_aligned() {
    let s = suite("my-bin");
    let test = instance(&s, "t");
    let events = [
        event(TestEventKind::TestStarted {
            test_instance: test,
            current_stats: stats(),
            running: 1,
            cancel_state: None,
        }),
        event(TestEventKind::TestSlow {
            test_instance: test,
            retry_data: RetryData { attempt: 1, total_attempts: 3 },
            elapsed: span(60, 0),
            will_terminate: true,
        }),
        event(TestEventKind::TestAttemptFailedWillRetry {
            test_instance: test,
            run_status: status(ExecutionResult::Timeout, 1, 3),
            delay_before_next_attempt: span(1, 0),
            failure_output: TestOutputDisplay::Immediate,
        }),
        event(TestEventKind::TestRetryStarted {
            test_instance: test,
            retry_data: RetryData { attempt: 2, total_attempts: 3 },
        }),
        finished(test, flaky(), TestOutputDisplay::Final, TestOutputDisplay::Final),
        event(TestEventKind::TestSkipped {
            test_instance: test,
            reason: MismatchReason::Partition,
        }),
        run_finished(stats()),
    ];
    let shown =
        report(StatusLevel::All, FinalStatusLevel::All, true, false, "my-bin", &events);
    let columns: Vec<usize> = shown.lines().filter_map(|line| line.find("my-bin t")).collect();
    assert_eq!(columns, vec![25; 13]);
}

#[test]
fn levels_are_incremental() {
    let s = suite("my-bin");
    let levels = [
        StatusLevel::NoOutput,
        StatusLevel::Fail,
        StatusLevel::Retry,
        StatusLevel::Slow,
        StatusLevel::Leak,
        StatusLevel::Pass,
        StatusLevel::Skip,
        StatusLevel::All,
    ];
    for statuses in [passed(), failed(), flaky()] {
        let e = finished(
            instance(&s, "t"),
            statuses,
            TestOutputDisplay::Immediate,
            TestOutputDisplay::Immediate,
        );
        let most = plain(StatusLevel::All, FinalStatusLevel::Fail, &[e.clone()]);
        let mut shown_before = false;
        for level in levels {
            let shown = plain(level, FinalStatusLevel::Fail, &[e.clone()]);
            assert!(shown == most || (shown.is_empty() && !shown_before));
            shown_before = !shown.is_empty();
        }
        assert!(shown_before);
    }
}

#[test]
fn highest_levels_fill_buffers_alike() {
    let a = suite("bin-a");
    let b = suite("bin-b");
    let never = TestOutputDisplay::Never;
    let last = TestOutputDisplay::Final;
    let events = [
        finished(instance(&b, "passes"), passed(), last, never),
        finished(instance(&a, "flaky"), flaky(), never, never),
        event(TestEventKind::TestSkipped {
            test_instance: instance(&a, "skipped"),
            reason: MismatchReason::Ignored,
        }),
        event(TestEventKind::TestSlow {
            test_instance: instance(&a, "slow"),
            retry_data: RetryData { attempt: 1, total_attempts: 2 },
            elapsed: span(60, 0),
            will_terminate: false,
        }),
        finished(instance(&a, "fails"), failed(), never, last),
        run_finished(stats()),
    ];
    let below = plain(StatusLevel::Skip, FinalStatusLevel::Pass, &events);
    assert_eq!(below.lines().filter(|line| line.contains("SKIP")).count(), 2);
    for level in [StatusLevel::Skip, StatusLevel::All] {
        for final_level in [FinalStatusLevel::Pass, FinalStatusLevel::All] {
            assert_eq!(plain(level, final_level, &events), below);
        }
    }
}

#[test]
fn terminals_get_their_output_back() {
    let s = suite("my-bin");
    let test_list = list(vec![suite("my-bin")]);
    let profile = NextestProfile {
        status_level: StatusLevel::Pass,
        final_status_level: FinalStatusLevel::Fail,
    };
    let e = finished(
        instance(&s, "t"),
        passed(),
        TestOutputDisplay::Never,
        TestOutputDisplay::Never,
    );
    let line = b"        PASS [   1.234s] my-bin t\n".to_vec();

    let mut reporter = TestReporterBuilder::default().build_for(
        &test_list,
        &profile,
        ReporterStderr::Terminal,
        true,
    );
    match reporter.report_event(&e) {
        EventReport::ToStderr { output } => assert_eq!(output, line),
        _ => panic!("the output is for standard error"),
    }

    let mut reporter = TestReporterBuilder::default().build_for(
        &test_list,
        &profile,
        ReporterStderr::Terminal,
        false,
    );
    match reporter.report_event(&e) {
        EventReport::AroundBar { output, .. } => assert_eq!(output, line),
        _ => panic!("the output is for a terminal with a bar"),
    }
}

#[test]
fn clones_are_equal() {
    let s = suite("my-bin");
    let e = finished(
        instance(&s, "t"),
        failed(),
        TestOutputDisplay::Never,
        TestOutputDisplay::Immediate,
    );
    assert_eq!(format!("{:?}", e), format!("{:?}", e.clone()));
}
