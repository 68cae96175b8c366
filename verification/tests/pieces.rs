use std::sync::Arc;
use test_reporter::lines::{ratio_string, script_number_string, status_cell_string, try_string};
use test_reporter::list::{compare_bytes, write_test_name, Comparison};
use test_reporter::shell::full_command;
use test_reporter::{
    ExecuteStatus, ExecutionDescription, ExecutionResult, ExecutionStatuses, FinalOutput,
    FinalStatusLevel, ListStyles, MismatchReason, NextestProfile, ReporterStderr, RetryData,
    RustTestSuite, ScriptId, SetupScriptExecuteStatus, StatusLevel, Style, Styles, TestEvent,
    TestEventKind, TestInstance, TestList, TestOutputDisplay, TestReporterBuilder,
    TestReporterImpl, TimeSpan,
};

fn reporter<'a>(level: StatusLevel, final_level: FinalStatusLevel) -> TestReporterImpl<'a> {
    let test_list = TestList {
        suites: Vec::new(),
        test_count: 0,
        run_count: 0,
        skip_count: 0,
        binary_count: 0,
    };
    let profile = NextestProfile { status_level: level, final_status_level: final_level };
    TestReporterBuilder::default()
        .build_for(&test_list, &profile, ReporterStderr::Terminal, true)
        .inner
}

fn span(text: &str) -> TimeSpan {
    TimeSpan { secs: 1, subsec_nanos: 0, seconds_text: text.to_owned() }
}

fn statuses(level: StatusLevel, final_level: FinalStatusLevel) -> ExecutionStatuses {
    ExecutionStatuses {
        description: ExecutionDescription::Success,
        status_level: level,
        final_status_level: final_level,
        last_status: ExecuteStatus {
            retry_data: RetryData { attempt: 1, total_attempts: 1 },
            stdout: Arc::new(b"out\n".to_vec()),
            stderr: Arc::new(Vec::new()),
            result: ExecutionResult::Pass,
            time_taken: span("0.100"),
            is_slow: false,
        },
    }
}

#[test]
fn every_style() {
    let cases = [
        (Style::Plain, "x"),
        (Style::Bold, "\u{1b}[1mx\u{1b}[0m"),
        (Style::Green, "\u{1b}[32mx\u{1b}[0m"),
        (Style::Magenta, "\u{1b}[35mx\u{1b}[0m"),
        (Style::Cyan, "\u{1b}[36mx\u{1b}[0m"),
        (Style::RedBold, "\u{1b}[31;1mx\u{1b}[0m"),
        (Style::GreenBold, "\u{1b}[32;1mx\u{1b}[0m"),
        (Style::YellowBold, "\u{1b}[33;1mx\u{1b}[0m"),
        (Style::BlueBold, "\u{1b}[34;1mx\u{1b}[0m"),
        (Style::MagentaBold, "\u{1b}[35;1mx\u{1b}[0m"),
    ];
    for (style, expected) in cases {
        assert_eq!(style.paint("x"), expected);
    }
    // Escape sequences within the text are left alone.
    assert_eq!(Style::Bold.paint("\u{1b}[0m"), "\u{1b}[1m\u{1b}[0m\u{1b}[0m");
}

#[test]
fn styles_turn_colored() {
    let mut styles = Styles::default();
    assert!(!styles.is_colorized);
    assert_eq!(styles.count, Style::Plain);
    styles.colorize();
    assert!(styles.is_colorized);
    assert_eq!(styles.count, Style::Bold);
    assert_eq!(styles.pass, Style::GreenBold);
    assert_eq!(styles.retry, Style::MagentaBold);
    assert_eq!(styles.fail, Style::RedBold);
    assert_eq!(styles.pass_output, Style::Green);
    assert_eq!(styles.retry_output, Style::Magenta);
    assert_eq!(styles.fail_output, Style::Magenta);
    assert_eq!(styles.skip, Style::YellowBold);
    assert_eq!(styles.script_id, Style::BlueBold);
}

#[test]
fn test_names_are_split() {
    let mut colored = ListStyles {
        binary_id: Style::Plain,
        test_name: Style::Plain,
        module_prefix: Style::Plain,
    };
    let plain = colored;
    colored.colorize();
    for name in ["t", "m::t", "a::b::t", "a::", "::", ":::", "ä::ö", ""] {
        let mut out = "> ".to_owned();
        write_test_name(name, &plain, &mut out);
        assert_eq!(out, format!("> {}", name));
        let mut out = String::new();
        write_test_name(name, &colored, &mut out);
        let expected = match name.rsplit_once("::") {
            Some((module, trailing)) => format!(
                "\u{1b}[36m{}\u{1b}[0m\u{1b}[36m::\u{1b}[0m\u{1b}[34;1m{}\u{1b}[0m",
                module, trailing
            ),
            None => format!("\u{1b}[34;1m{}\u{1b}[0m", name),
        };
        assert_eq!(out, expected);
    }
}

#[test]
fn byte_strings_are_ordered() {
    let all: [&[u8]; 6] = [b"", b"A", b"a", b"aa", b"ab", b"b"];
    for (i, a) in all.iter().enumerate() {
        for (j, b) in all.iter().enumerate() {
            let expected = if i < j {
                Comparison::Before
            } else if i == j {
                Comparison::Same
            } else {
                Comparison::After
            };
            assert_eq!(compare_bytes(a, b), expected);
        }
    }
}

#[test]
fn command_lines_are_quoted() {
    let args = ["plain".to_owned(), "two words".to_owned(), "it's".to_owned(), String::new()];
    assert_eq!(full_command("cmd", &args), "cmd plain 'two words' 'it'\\''s' ''");
    assert_eq!(full_command("my cmd", &[]), "'my cmd'");
}

#[test]
fn cells() {
    assert_eq!(status_cell_string(Style::Plain, "PASS"), "        PASS ");
    assert_eq!(status_cell_string(Style::Plain, "wider than that"), "wider than that ");
    assert_eq!(status_cell_string(Style::GreenBold, "PASS"), "\u{1b}[32;1m        PASS\u{1b}[0m ");
    assert_eq!(try_string(3, "FAIL"), "TRY 3 FAIL");
    assert_eq!(ratio_string("FLAKY ", 2, 13), "FLAKY 2/13");
    assert_eq!(script_number_string(0, 2), "[      1/2] ");
}

#[test]
fn times() {
    let inner = reporter(StatusLevel::Pass, FinalStatusLevel::Fail);
    let mut out = String::new();
    inner.write_duration(&span("1.500"), &mut out);
    inner.write_duration_by(&span("1.500"), &mut out);
    inner.write_slow_duration(&span("60.000"), &mut out);
    inner.write_duration(&span("123456.000"), &mut out);
    assert_eq!(out, "[   1.500s] by   1.500s [> 60.000s] [123456.000s] ");
}

#[test]
fn times_up_to_999_seconds_fit() {
    let inner = reporter(StatusLevel::Pass, FinalStatusLevel::Fail);
    for (millis, text) in
        [(0, "0.000"), (34, "0.034"), (1_500, "1.500"), (60_000, "60.000"), (999_000, "999.000")]
    {
        let duration = std::time::Duration::from_millis(millis);
        let span = TimeSpan {
            secs: duration.as_secs(),
            subsec_nanos: duration.subsec_nanos(),
            seconds_text: format!("{:.3?}", duration.as_secs_f64()),
        };
        assert_eq!(span.seconds_text, text);
        let mut taken = String::new();
        inner.write_duration(&span, &mut taken);
        let mut delay = String::new();
        inner.write_duration_by(&span, &mut delay);
        let mut so_far = String::new();
        inner.write_slow_duration(&span, &mut so_far);
        assert_eq!((taken.len(), delay.len(), so_far.len()), (12, 12, 12));
        if millis == 34 {
            assert_eq!(taken, "[   0.034s] ");
            assert_eq!(delay, "by   0.034s ");
            assert_eq!(so_far, "[>  0.034s] ");
        }
    }
}

#[test]
fn scripts_with_a_given_command_line() {
    let inner = reporter(StatusLevel::Slow, FinalStatusLevel::Fail);
    let id = ScriptId("db".to_owned());
    let mut out = String::new();
    inner.write_script_started(0, 1, &id, "run it", &mut out);
    inner.write_script_slow(&id, "run it", &span("9.000"), false, &mut out);
    inner.write_script_status_line(&id, 0, 1, "run it", &ExecutionResult::ExecFail, &mut out);
    inner.write_script_command(&id, "run it", &mut out);
    assert_eq!(
        out,
        "       SETUP [      1/1] db: run it\n  SETUP SLOW [>  9.000s] db: run it\n \
         SETUP XFAIL [      1/1] db: run it\ndb: run it"
    );
    let status = SetupScriptExecuteStatus {
        stdout: Arc::new(b"\x1b[1mbold\x1b[0m".to_vec()),
        stderr: Arc::new(Vec::new()),
        result: ExecutionResult::ExecFail,
    };
    let mut out: Vec<u8> = b"> ".to_vec();
    inner.write_script_stdout_stderr(&id, "run it", &status, &mut out);
    assert_eq!(
        String::from_utf8(out).unwrap(),
        "> \n--- STDOUT:              db: run it ---\nbold\n"
    );
}

#[test]
fn scripts_with_a_command() {
    let inner = reporter(StatusLevel::Pass, FinalStatusLevel::Fail);
    let id = ScriptId("db".to_owned());
    let args = ["a b".to_owned()];
    let status = SetupScriptExecuteStatus {
        stdout: Arc::new(Vec::new()),
        stderr: Arc::new(b"err\n".to_vec()),
        result: ExecutionResult::Pass,
    };
    let mut out = String::new();
    inner.write_setup_script(&id, "cmd", &args, &mut out);
    assert_eq!(out, "db: cmd 'a b'");
    let mut out = String::new();
    inner.write_setup_script_status_line(&id, 1, 2, "cmd", &args, &status, &mut out);
    assert_eq!(out, "  SETUP PASS [      2/2] db: cmd 'a b'\n");
    let mut out: Vec<u8> = Vec::new();
    inner.write_setup_script_stdout_stderr(&id, "cmd", &args, &status, &mut out);
    assert_eq!(
        String::from_utf8(out).unwrap(),
        "\n--- STDERR:              db: cmd 'a b' ---\nerr\n\n"
    );
}

#[test]
fn captured_output() {
    let mut inner = reporter(StatusLevel::Pass, FinalStatusLevel::Fail);
    let raw = b"a\x1b[31mb\x1b[0m\tc\r\n";
    let mut out: Vec<u8> = Vec::new();
    inner.write_test_output(raw, &mut out);
    // Control characters other than newlines are taken out too.
    assert_eq!(out, b"abc\n");
    inner.styles.colorize();
    let mut out: Vec<u8> = Vec::new();
    inner.write_test_output(raw, &mut out);
    assert_eq!(out, b"a\x1b[31mb\x1b[0m\tc\r\n\x1b[0m");
}

#[test]
fn attempt_widths() {
    let inner = reporter(StatusLevel::Pass, FinalStatusLevel::Fail);
    let mut status = statuses(StatusLevel::Pass, FinalStatusLevel::Pass).last_status;
    let mut out = String::new();
    assert_eq!(inner.write_attempt(&status, Style::Plain, &mut out), 0);
    assert_eq!(out, "");
    status.retry_data = RetryData { attempt: 12, total_attempts: 20 };
    assert_eq!(inner.write_attempt(&status, Style::Bold, &mut out), 7);
    assert_eq!(out, "\u{1b}[1mTRY\u{1b}[0m \u{1b}[1m12\u{1b}[0m ");
}

#[test]
fn highest_levels_mean_the_ones_below() {
    let suite = RustTestSuite { binary_id: "b".to_owned(), test_count: 1 };
    let test_instance = TestInstance { name: "t", suite_info: &suite };
    let kinds = [
        TestEventKind::TestSkipped { test_instance, reason: MismatchReason::String },
        TestEventKind::TestSlow {
            test_instance,
            retry_data: RetryData { attempt: 1, total_attempts: 2 },
            elapsed: span("1.000"),
            will_terminate: true,
        },
    ];
    for kind in kinds {
        let e = TestEvent { elapsed: std::time::Duration::ZERO, kind };
        let mut outputs = Vec::new();
        for level in [StatusLevel::Skip, StatusLevel::All] {
            let mut out: Vec<u8> = Vec::new();
            reporter(level, FinalStatusLevel::NoOutput).write_event_impl(&e, &mut out);
            outputs.push(out);
        }
        assert!(!outputs[0].is_empty());
        assert_eq!(outputs[0], outputs[1]);
    }
    let entry = (
        test_instance,
        FinalOutput::Executed {
            run_statuses: statuses(StatusLevel::Pass, FinalStatusLevel::Pass),
            test_output_display: TestOutputDisplay::Never,
        },
    );
    for level in [FinalStatusLevel::Pass, FinalStatusLevel::All] {
        let mut out: Vec<u8> = Vec::new();
        reporter(StatusLevel::Pass, level).write_entry(&entry, &mut out);
        assert_eq!(out, b"        PASS [   0.100s] b t\n");
    }
}

#[test]
fn levels_of_final_outputs() {
    assert_eq!(
        FinalOutput::Skipped(MismatchReason::Ignored).final_status_level(),
        FinalStatusLevel::Skip
    );
    assert_eq!(
        FinalOutput::Executed {
            run_statuses: statuses(StatusLevel::Slow, FinalStatusLevel::Slow),
            test_output_display: TestOutputDisplay::Final,
        }
        .final_status_level(),
        FinalStatusLevel::Slow
    );
}

#[test]
fn uncaptured_tests_show_no_output() {
    let suite = RustTestSuite { binary_id: "b".to_owned(), test_count: 1 };
    let test_instance = TestInstance { name: "t", suite_info: &suite };
    let mut inner = reporter(StatusLevel::Pass, FinalStatusLevel::All);
    let mut out: Vec<u8> = Vec::new();
    let mut forced = test_reporter::ForceOutput::default();
    forced.set_success(TestOutputDisplay::ImmediateFinal);
    forced.set_no_capture();
    let e = TestEvent {
        elapsed: std::time::Duration::ZERO,
        kind: TestEventKind::TestFinished {
            test_instance,
            success_output: forced.success.unwrap(),
            failure_output: forced.failure.unwrap(),
            junit_store_success_output: false,
            junit_store_failure_output: false,
            run_statuses: statuses(StatusLevel::Pass, FinalStatusLevel::Pass),
            current_stats: test_reporter::RunStats {
                initial_run_count: 1,
                finished_count: 1,
                passed: 1,
                passed_slow: 0,
                flaky: 0,
                failed: 0,
                timed_out: 0,
                leaky: 0,
                exec_failed: 0,
                skipped: 0,
                has_failure: false,
            },
            running: 0,
            cancel_state: None,
        },
    };
    inner.write_event_impl(&e, &mut out);
    assert_eq!(out, b"        PASS [   0.100s] b t\n");
    assert_eq!(inner.final_outputs.len(), 1);
    let mut out: Vec<u8> = Vec::new();
    inner.write_entry(&inner.final_outputs[0], &mut out);
    assert_eq!(out, b"        PASS [   0.100s] b t\n");
}
