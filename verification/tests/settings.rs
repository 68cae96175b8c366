use test_reporter::levels;
use test_reporter::{
    CancelReason,
    FinalStatusLevel, ForceOutput, NextestProfile, ReporterStderr, ReporterStderrImpl, StatusLevel,
    RustTestSuite, TestList, TestOutputDisplay, TestReporterBuilder,
};

fn empty_list() -> TestList {
    TestList {
        suites: Vec::new(),
        test_count: 0,
        run_count: 0,
        skip_count: 0,
        binary_count: 0,
    }
}

fn default_profile() -> NextestProfile {
    NextestProfile {
        status_level: StatusLevel::Pass,
        final_status_level: FinalStatusLevel::Fail,
    }
}

#[test]
fn no_capture_settings() {
    // Ensure that output settings are ignored with no-capture.
    let mut builder = TestReporterBuilder::default();
    builder
        .set_no_capture(true)
        .set_status_level(StatusLevel::Fail);
    let test_list = empty_list();
    let profile = default_profile();

    let mut buf: Vec<u8> = Vec::new();
    let output = ReporterStderr::Buffer(&mut buf);
    let reporter = builder.build(&test_list, &profile, output);
    assert!(reporter.inner.no_capture, "no_capture is true");
    assert_eq!(
        reporter.inner.status_level,
        StatusLevel::Pass,
        "status level is pass, overriding other settings"
    );

    let mut force_output = ForceOutput::default();
    force_output.set_failure(TestOutputDisplay::Immediate);
    force_output.set_no_capture();
    assert_eq!(
        force_output.failure,
        Some(TestOutputDisplay::Never),
        "failure output is never, overriding other settings"
    );
    assert_eq!(
        force_output.success,
        Some(TestOutputDisplay::Never),
        "success output is never, overriding other settings"
    );
}

#[test]
fn no_capture_keeps_higher_levels() {
    let mut builder = TestReporterBuilder::default();
    builder.set_no_capture(true).set_status_level(StatusLevel::All);
    let reporter = builder.build_for(
        &empty_list(),
        &default_profile(),
        ReporterStderr::Terminal,
        false,
    );
    assert_eq!(reporter.inner.status_level, StatusLevel::All);
    assert!(matches!(reporter.stderr, ReporterStderrImpl::TerminalWithoutBar));
}

#[test]
fn levels_fall_back_to_profile() {
    let builder = TestReporterBuilder::default();
    let reporter = builder.build_for(
        &empty_list(),
        &default_profile(),
        ReporterStderr::Terminal,
        true,
    );
    assert_eq!(reporter.inner.status_level, StatusLevel::Pass);
    assert_eq!(reporter.inner.final_status_level, FinalStatusLevel::Fail);
    assert!(!reporter.inner.no_capture);
    assert_eq!(reporter.inner.binary_id_width, 0);
    assert!(reporter.inner.final_outputs.is_empty());
    assert_eq!(reporter.inner.cancel_status, None);
}

#[test]
fn set_levels_win() {
    let mut builder = TestReporterBuilder::default();
    builder
        .set_status_level(StatusLevel::NoOutput)
        .set_final_status_level(FinalStatusLevel::Slow)
        .set_verbose(true);
    assert!(builder.verbose);
    let reporter = builder.build_for(
        &empty_list(),
        &default_profile(),
        ReporterStderr::Terminal,
        true,
    );
    assert_eq!(reporter.inner.status_level, StatusLevel::NoOutput);
    assert_eq!(reporter.inner.final_status_level, FinalStatusLevel::Slow);
}

#[test]
fn progress_bar_conditions() {
    let mut list = empty_list();
    list.test_count = 1234;
    let profile = default_profile();

    let builder = TestReporterBuilder::default();
    let reporter = builder.build_for(&list, &profile, ReporterStderr::Terminal, false);
    match reporter.stderr {
        ReporterStderrImpl::TerminalWithBar(setup) => {
            assert_eq!(setup.length, 1234);
            assert_eq!(
                setup.template,
                "{prefix:>12} [{elapsed_precise:>9}] [{wide_bar}] {pos:>4}/{len:4}: {msg}     "
            );
            assert_eq!(setup.progress_chars, "=> ");
            assert_eq!(setup.refresh_hz, 20);
            assert_eq!(setup.tick_millis, 100);
        }
        _ => panic!("a bar is expected"),
    }

    // In CI there is no bar.
    let reporter = builder.build_for(&list, &profile, ReporterStderr::Terminal, true);
    assert!(matches!(reporter.stderr, ReporterStderrImpl::TerminalWithoutBar));

    // A hidden bar is not there.
    let mut builder = TestReporterBuilder::default();
    builder.set_hide_progress_bar(true);
    let reporter = builder.build_for(&list, &profile, ReporterStderr::Terminal, false);
    assert!(matches!(reporter.stderr, ReporterStderrImpl::TerminalWithoutBar));

    // Nor is there one when tests write to the terminal themselves.
    let mut builder = TestReporterBuilder::default();
    builder.set_no_capture(true);
    let reporter = builder.build_for(&list, &profile, ReporterStderr::Terminal, false);
    assert!(matches!(reporter.stderr, ReporterStderrImpl::TerminalWithoutBar));

    // A buffer stays a buffer.
    let mut buf: Vec<u8> = Vec::new();
    let reporter = builder.build_for(&list, &profile, ReporterStderr::Buffer(&mut buf), false);
    assert!(matches!(reporter.stderr, ReporterStderrImpl::Buffer(_)));
}

#[test]
fn environment_decides_on_the_bar() {
    // Whether this runs in CI or not, the outcome is one of the two that are possible.
    let builder = TestReporterBuilder::default();
    let reporter = builder.build(&empty_list(), &default_profile(), ReporterStderr::Terminal);
    let expected = is_ci::uncached();
    assert_eq!(
        matches!(reporter.stderr, ReporterStderrImpl::TerminalWithoutBar),
        expected
    );
}

#[test]
fn binary_id_width_ignores_empty_binaries() {
    let list = TestList {
        suites: vec![
            RustTestSuite { binary_id: "short".to_owned(), test_count: 1 },
            RustTestSuite { binary_id: "much-longer-but-empty".to_owned(), test_count: 0 },
            // Ten bytes in nine characters.
            RustTestSuite { binary_id: "caf\u{e9}::bin".to_owned(), test_count: 3 },
        ],
        ..empty_list()
    };
    let reporter = TestReporterBuilder::default().build_for(
        &list,
        &default_profile(),
        ReporterStderr::Terminal,
        true,
    );
    assert_eq!(reporter.inner.binary_id_width, 10);
}

#[test]
fn output_displays() {
    assert!(TestOutputDisplay::Immediate.is_immediate());
    assert!(TestOutputDisplay::ImmediateFinal.is_immediate());
    assert!(!TestOutputDisplay::Final.is_immediate());
    assert!(!TestOutputDisplay::Never.is_immediate());
    assert!(!TestOutputDisplay::Immediate.is_final());
    assert!(TestOutputDisplay::ImmediateFinal.is_final());
    assert!(TestOutputDisplay::Final.is_final());
    assert!(!TestOutputDisplay::Never.is_final());
    assert!(!TestOutputDisplay::Immediate.is_never());
    assert!(!TestOutputDisplay::ImmediateFinal.is_never());
    assert!(!TestOutputDisplay::Final.is_never());
    assert!(TestOutputDisplay::Never.is_never());
}

#[test]
fn forced_output() {
    let mut force = ForceOutput::default();
    assert_eq!(force.success, None);
    assert_eq!(force.failure, None);
    force.set_success(TestOutputDisplay::Final);
    assert_eq!(force.success, Some(TestOutputDisplay::Final));
    assert_eq!(force.failure, None);
    force.set_failure(TestOutputDisplay::ImmediateFinal);
    assert_eq!(force.success, Some(TestOutputDisplay::Final));
    assert_eq!(force.failure, Some(TestOutputDisplay::ImmediateFinal));
}

#[test]
fn level_orders() {
    let levels = [
        StatusLevel::NoOutput,
        StatusLevel::Fail,
        StatusLevel::Retry,
        StatusLevel::Slow,
        StatusLevel::Leak,
        StatusLevel::Pass,
        StatusLevel::Skip,
        StatusLevel::All,
    ];
    for (i, a) in levels.iter().enumerate() {
        for (j, b) in levels.iter().enumerate() {
            assert_eq!(a.shows(*b), i >= j);
            assert_eq!(a.shows(*b), a >= b);
            assert_eq!(a.raised_to(*b), *a.max(b));
        }
    }
    let levels = [
        FinalStatusLevel::NoOutput,
        FinalStatusLevel::Fail,
        FinalStatusLevel::Flaky,
        FinalStatusLevel::Slow,
        FinalStatusLevel::Skip,
        FinalStatusLevel::Leak,
        FinalStatusLevel::Pass,
        FinalStatusLevel::All,
    ];
    for (i, a) in levels.iter().enumerate() {
        for (j, b) in levels.iter().enumerate() {
            assert_eq!(a.shows(*b), i >= j);
            assert_eq!(a.shows(*b), a >= b);
        }
    }
}

#[test]
fn cancel_reasons_escalate() {
    let reasons = [
        CancelReason::SetupScriptFailure,
        CancelReason::TestFailure,
        CancelReason::ReportError,
        CancelReason::Signal,
        CancelReason::Interrupt,
    ];
    for a in reasons {
        assert_eq!(levels::escalated(None, a), Some(a));
        assert_eq!(
            levels::is_stopped_by_signal(Some(a)),
            a >= CancelReason::Signal
        );
        for b in reasons {
            assert_eq!(levels::escalated(Some(a), b), Some(a).max(Some(b)));
        }
    }
    assert!(!levels::is_stopped_by_signal(None));
}
