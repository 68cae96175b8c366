use test_reporter::runner::{short_status_str, status_str};
use test_reporter::summary::{binaries_str, setup_scripts_str, tests_str, write_summary_str};
use test_reporter::text::{decimal_string, left_aligned, right_aligned, signed_decimal_string};
use test_reporter::{AbortStatus, ExecutionResult, RunStats, Styles};

fn signal(number: i32, name: Option<&'static str>) -> ExecutionResult {
    ExecutionResult::Fail {
        abort_status: Some(AbortStatus::UnixSignal { number, name }),
        leaked: false,
    }
}

fn fail(leaked: bool) -> ExecutionResult {
    ExecutionResult::Fail { abort_status: None, leaked }
}

fn nt_status() -> ExecutionResult {
    ExecutionResult::Fail {
        abort_status: Some(AbortStatus::WindowsNtStatus {
            message: "0xc0000005: Access violation".to_owned(),
        }),
        leaked: true,
    }
}

#[test]
fn statuses() {
    assert_eq!(status_str(&signal(9, Some("KILL"))), "SIGKILL");
    assert_eq!(status_str(&signal(35, None)), "ABORT SIG 35");
    assert_eq!(status_str(&signal(-1, None)), "ABORT SIG -1");
    assert_eq!(status_str(&nt_status()), "ABORT");
    assert_eq!(status_str(&fail(true)), "FAIL + LEAK");
    assert_eq!(status_str(&fail(false)), "FAIL");
    assert_eq!(status_str(&ExecutionResult::ExecFail), "XFAIL");
    assert_eq!(status_str(&ExecutionResult::Pass), "PASS");
    assert_eq!(status_str(&ExecutionResult::Leak), "LEAK");
    assert_eq!(status_str(&ExecutionResult::Timeout), "TIMEOUT");
}

#[test]
fn short_statuses() {
    assert_eq!(short_status_str(&signal(9, Some("KILL"))), "KILL");
    assert_eq!(short_status_str(&signal(35, None)), "SIG 35");
    assert_eq!(short_status_str(&nt_status()), "ABORT");
    assert_eq!(short_status_str(&fail(true)), "FAIL");
    assert_eq!(short_status_str(&fail(false)), "FAIL");
    assert_eq!(short_status_str(&ExecutionResult::ExecFail), "XFAIL");
    assert_eq!(short_status_str(&ExecutionResult::Pass), "PASS");
    assert_eq!(short_status_str(&ExecutionResult::Leak), "LEAK");
    assert_eq!(short_status_str(&ExecutionResult::Timeout), "TMT");
}

#[test]
fn statuses_fit_in_their_column() {
    let results = [
        signal(9, Some("KILL")),
        signal(64, None),
        nt_status(),
        fail(true),
        fail(false),
        ExecutionResult::ExecFail,
        ExecutionResult::Pass,
        ExecutionResult::Leak,
        ExecutionResult::Timeout,
    ];
    for result in results.iter() {
        assert!(status_str(result).chars().count() <= 12);
        assert!(short_status_str(result).chars().count() <= 6);
    }
}

#[test]
fn successes() {
    assert!(ExecutionResult::Pass.is_success());
    assert!(ExecutionResult::Leak.is_success());
    assert!(!fail(false).is_success());
    assert!(!ExecutionResult::ExecFail.is_success());
    assert!(!ExecutionResult::Timeout.is_success());
}

#[test]
fn nouns() {
    assert_eq!(setup_scripts_str(0), "setup scripts");
    assert_eq!(setup_scripts_str(1), "setup script");
    assert_eq!(setup_scripts_str(2), "setup scripts");
    assert_eq!(tests_str(0), "tests");
    assert_eq!(tests_str(1), "test");
    assert_eq!(binaries_str(1), "binary");
    assert_eq!(binaries_str(7), "binaries");
}

#[test]
fn numbers() {
    for n in [0u64, 7, 9, 10, 99, 100, 1234567890, u64::MAX] {
        assert_eq!(decimal_string(n), format!("{}", n));
    }
    for n in [0i32, -1, 12, i32::MIN, i32::MAX] {
        assert_eq!(signed_decimal_string(n), format!("{}", n));
    }
}

#[test]
fn padding() {
    for s in ["", "abc", "\u{e9}t\u{e9}", "much too long for it"] {
        assert_eq!(right_aligned(s, 8), format!("{:>8}", s));
        assert_eq!(left_aligned(s, 8), format!("{:8}", s));
    }
}

fn stats() -> RunStats {
    RunStats {
        initial_run_count: 0,
        finished_count: 0,
        passed: 0,
        passed_slow: 0,
        flaky: 0,
        failed: 0,
        timed_out: 0,
        leaky: 0,
        exec_failed: 0,
        skipped: 0,
        has_failure: false,
    }
}

fn summary(stats: &RunStats, styles: &Styles) -> String {
    let mut s = String::new();
    write_summary_str(stats, styles, &mut s);
    s
}

#[test]
fn summaries() {
    let styles = Styles::default();
    assert_eq!(summary(&stats(), &styles), "0 passed, 0 skipped");

    let all = RunStats {
        passed: 10,
        passed_slow: 1,
        flaky: 2,
        leaky: 3,
        failed: 4,
        exec_failed: 5,
        timed_out: 6,
        skipped: 7,
        ..stats()
    };
    assert_eq!(
        summary(&all, &styles),
        "10 passed (1 slow, 2 flaky, 3 leaky), 4 failed, 5 exec failed, 6 timed out, 7 skipped"
    );

    let leaky = RunStats { passed: 3, leaky: 1, timed_out: 1, ..stats() };
    assert_eq!(
        summary(&leaky, &styles),
        "3 passed (1 leaky), 1 timed out, 0 skipped"
    );
}

#[test]
fn colored_summary() {
    let mut styles = Styles::default();
    styles.colorize();
    let some = RunStats { passed: 2, flaky: 1, failed: 1, ..stats() };
    assert_eq!(
        summary(&some, &styles),
        "\u{1b}[1m2\u{1b}[0m \u{1b}[32;1mpassed\u{1b}[0m \
         (\u{1b}[1m1\u{1b}[0m \u{1b}[33;1mflaky\u{1b}[0m), \
         \u{1b}[1m1\u{1b}[0m \u{1b}[31;1mfailed\u{1b}[0m, \
         \u{1b}[1m0\u{1b}[0m \u{1b}[33;1mskipped\u{1b}[0m"
    );
}
