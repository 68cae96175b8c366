//! What the report on each event shows.

use crate::ansi;
use crate::event::{ScriptId, TestEventKind};
use crate::final_output;
use crate::final_output::{Entry, FinalOutput};
use crate::laws;
use crate::levels;
use crate::levels::{CancelReason, FinalStatusLevel, StatusLevel, TestOutputDisplay};
use crate::lines;
use crate::lines::TestReporterImpl;
use crate::list;
use crate::list::TestInstance;
use crate::report;
use crate::runner;
use crate::runner::{
    AbortStatus, ExecuteStatus, ExecutionDescription, ExecutionResult, ExecutionStatuses, RetryData,
    SetupScriptExecuteStatus, TimeSpan,
};
use crate::shell;
use crate::style::{Style, Styles};
use crate::text;
use vstd::prelude::*;
use vstd::utf8::*;

verus! {

/// A word in the status column.
pub open spec fn word(style: Style, s: Seq<char>) -> Seq<char> {
    style.painted(text::pad_left(s, 12)) + " "@
}

/// A number as it is shown.
pub open spec fn number(styles: Styles, n: usize) -> Seq<char> {
    styles.count.painted(text::decimal(n as nat))
}

/// A test as it is shown.
pub open spec fn test(styles: Styles, width: usize, t: TestInstance) -> Seq<char> {
    styles.list_styles.binary_id.painted(text::pad_left(t.suite_info.binary_id@, width as nat))
        + " "@ + list::styled_test_name(t.name@, styles.list_styles)
}

/// A setup script as it is shown.
pub open spec fn script(styles: Styles, id: ScriptId, command: &str, args: &[String]) -> Seq<char> {
    styles.script_id.painted(id.0@) + ": "@ + shell::command_line(
        shell::command_words(command, args),
    )
}

/// True if a result is a success.
pub open spec fn passed(result: ExecutionResult) -> bool {
    result == ExecutionResult::Pass || result == ExecutionResult::Leak
}

/// True if a reporter shows no test output any more.
pub open spec fn is_silenced(r: TestReporterImpl) -> bool {
    r.cancel_status == Some(CancelReason::Signal) || r.cancel_status == Some(
        CancelReason::Interrupt,
    )
}

/// True if a part occurs somewhere in a text.
pub open spec fn occurs_in<A>(part: Seq<A>, whole: Seq<A>) -> bool {
    exists|i: int|
        0 <= i && i + part.len() <= whole.len() && #[trigger] whole.subrange(i, i + part.len())
            == part
}

/// A part between two others occurs in all three together.
pub proof fn lemma_occurs<A>(front: Seq<A>, part: Seq<A>, back: Seq<A>)
    ensures
        occurs_in(part, front + part + back),
{
    let i = front.len() as int;
    assert((front + part + back).subrange(i, i + part.len()) =~= part);
}

// ---
// Test output
// ---

/// What was captured is shown whole: with colors as it is, followed by a reset, and without colors
/// but for its escape sequences.
pub proof fn law_captured_output_is_shown_whole(styles: Styles, output: Seq<u8>)
    ensures
        styles.is_colorized ==> {
            let shown = lines::shown_output(styles, output);
            &&& shown.take(output.len() as int) == output
            &&& shown.skip(output.len() as int) == encode_utf8("\x1b[0m"@)
        },
        !styles.is_colorized ==> lines::shown_output(styles, output) == ansi::stripped(output),
{
}

/// The header of a stream names the attempt if there may be others, the stream and the test. The
/// name of the stream fills what the attempt leaves of 21 columns.
pub proof fn law_headers_name_attempt_stream_and_test(
    styles: Styles,
    width: usize,
    style: Style,
    label: Seq<char>,
    retry_data: RetryData,
    t: TestInstance,
)
    ensures
        retry_data.total_attempts <= 1 ==> lines::test_output_header(
            styles,
            width,
            style,
            label,
            retry_data,
            t,
        ) == "\n"@ + style.painted("--- "@) + style.painted(text::pad_right(label, 21)) + test(
            styles,
            width,
            t,
        ) + style.painted(" ---"@) + "\n"@,
        retry_data.total_attempts > 1 ==> {
            let n = text::decimal(retry_data.attempt as nat);
            lines::test_output_header(styles, width, style, label, retry_data, t) == "\n"@
                + style.painted("--- "@) + (style.painted("TRY"@) + " "@ + style.painted(n) + " "@)
                + style.painted(text::pad_right(label, (16 - n.len()) as nat)) + test(
                styles,
                width,
                t,
            ) + style.painted(" ---"@) + "\n"@
        },
{
    reveal_strlit("");
    let front = "\n"@ + style.painted("--- "@);
    assert(front + ""@ =~= front);
}

/// Each stream of an attempt is shown under its header whenever it is not empty, whatever the other
/// one holds: first standard output, then standard error. An empty stream adds nothing, and one
/// newline ends it all. Headers have the style for retries, for what passed or for what failed.
pub proof fn law_streams_of_tests_are_shown(
    styles: Styles,
    width: usize,
    t: TestInstance,
    status: ExecuteStatus,
    is_retry: bool,
)
    ensures
        ({
            let style = if is_retry {
                styles.retry
            } else if status.result == ExecutionResult::Pass || status.result
                == ExecutionResult::Leak {
                styles.pass
            } else {
                styles.fail
            };
            let stdout = encode_utf8(
                lines::test_output_header(styles, width, style, "STDOUT:"@, status.retry_data, t),
            ) + lines::shown_output(styles, status.stdout@);
            let stderr = encode_utf8(
                lines::test_output_header(styles, width, style, "STDERR:"@, status.retry_data, t),
            ) + lines::shown_output(styles, status.stderr@);
            let end = encode_utf8("\n"@);
            let shown = lines::stdout_stderr(styles, width, t, status, is_retry);
            &&& status.stdout@.len() > 0 && status.stderr@.len() > 0 ==> shown == stdout + stderr
                + end
            &&& status.stdout@.len() > 0 && status.stderr@.len() == 0 ==> shown == stdout + end
            &&& status.stdout@.len() == 0 && status.stderr@.len() > 0 ==> shown == stderr + end
            &&& status.stdout@.len() == 0 && status.stderr@.len() == 0 ==> shown == end
            &&& status.stdout@.len() > 0 ==> occurs_in(stdout, shown)
            &&& status.stderr@.len() > 0 ==> occurs_in(stderr, shown)
        }),
{
    let style = lines::output_style(styles, status.result, is_retry);
    let stdout = encode_utf8(
        lines::test_output_header(styles, width, style, "STDOUT:"@, status.retry_data, t),
    ) + lines::shown_output(styles, status.stdout@);
    let stderr = encode_utf8(
        lines::test_output_header(styles, width, style, "STDERR:"@, status.retry_data, t),
    ) + lines::shown_output(styles, status.stderr@);
    let end = encode_utf8("\n"@);
    let shown = lines::stdout_stderr(styles, width, t, status, is_retry);
    let none = Seq::<u8>::empty();
    assert(none + stderr =~= stderr);
    assert(stdout + none =~= stdout);
    assert(none + none =~= none);
    assert(none + end =~= end);
    if status.stdout@.len() > 0 {
        let back = if status.stderr@.len() > 0 { stderr + end } else { end };
        lemma_occurs(none, stdout, back);
        assert(none + stdout + back =~= shown);
    }
    if status.stderr@.len() > 0 {
        let front = if status.stdout@.len() > 0 { stdout } else { none };
        lemma_occurs(front, stderr, end);
        assert(front + stderr + end =~= shown);
    }
}

/// The streams of an attempt do not depend on each other: what is shown of both is what is shown of
/// the first alone, without the newline at its end, and then what is shown of the second alone.
pub proof fn law_streams_do_not_depend_on_each_other(
    styles: Styles,
    width: usize,
    t: TestInstance,
    both: ExecuteStatus,
    first: ExecuteStatus,
    second: ExecuteStatus,
    is_retry: bool,
)
    requires
        first.stdout@ == both.stdout@ && first.stderr@.len() == 0,
        second.stderr@ == both.stderr@ && second.stdout@.len() == 0,
        first.retry_data == both.retry_data && second.retry_data == both.retry_data,
        first.result == both.result && second.result == both.result,
    ensures
        ({
            let of_first = lines::stdout_stderr(styles, width, t, first, is_retry);
            let of_second = lines::stdout_stderr(styles, width, t, second, is_retry);
            lines::stdout_stderr(styles, width, t, both, is_retry) == of_first.take(
                of_first.len() - encode_utf8("\n"@).len(),
            ) + of_second
        }),
{
    let of_first = lines::stdout_stderr(styles, width, t, first, is_retry);
    let of_second = lines::stdout_stderr(styles, width, t, second, is_retry);
    assert(lines::stdout_stderr(styles, width, t, both, is_retry) =~= of_first.take(
        of_first.len() - encode_utf8("\n"@).len(),
    ) + of_second);
}

/// What was captured is not looked at but for being shown: statuses that agree in what is shown of
/// an attempt are shown alike, however long the attempt took and whether or not it was slow.
pub proof fn law_output_depends_on_what_was_captured(
    styles: Styles,
    width: usize,
    t: TestInstance,
    a: ExecuteStatus,
    b: ExecuteStatus,
    is_retry: bool,
)
    requires
        a.stdout@ == b.stdout@,
        a.stderr@ == b.stderr@,
        a.retry_data == b.retry_data,
        is_retry || passed(a.result) == passed(b.result),
    ensures
        lines::stdout_stderr(styles, width, t, a, is_retry) == lines::stdout_stderr(
            styles,
            width,
            t,
            b,
            is_retry,
        ),
{
}

/// The same of setup scripts: each stream is shown whenever it is not empty.
pub proof fn law_streams_of_scripts_are_shown(
    styles: Styles,
    id: ScriptId,
    full_command: Seq<char>,
    status: SetupScriptExecuteStatus,
)
    ensures
        ({
            let style = if status.result == ExecutionResult::Pass || status.result
                == ExecutionResult::Leak {
                styles.pass
            } else {
                styles.fail
            };
            let script = styles.script_id.painted(id.0@) + ": "@ + full_command;
            let stdout = encode_utf8(
                "\n"@ + style.painted("--- "@) + style.painted(text::pad_right("STDOUT:"@, 21))
                    + script + style.painted(" ---"@) + "\n"@,
            ) + lines::shown_output(styles, status.stdout@);
            let stderr = encode_utf8(
                "\n"@ + style.painted("--- "@) + style.painted(text::pad_right("STDERR:"@, 21))
                    + script + style.painted(" ---"@) + "\n"@,
            ) + lines::shown_output(styles, status.stderr@);
            let end = encode_utf8("\n"@);
            let shown = lines::script_stdout_stderr(styles, id, full_command, status);
            &&& status.stdout@.len() > 0 && status.stderr@.len() > 0 ==> shown == stdout + stderr
                + end
            &&& status.stdout@.len() > 0 && status.stderr@.len() == 0 ==> shown == stdout + end
            &&& status.stdout@.len() == 0 && status.stderr@.len() > 0 ==> shown == stderr + end
            &&& status.stdout@.len() == 0 && status.stderr@.len() == 0 ==> shown == end
        }),
{
    let style = lines::output_style(styles, status.result, false);
    let stdout = encode_utf8(
        lines::script_output_header(styles, style, "STDOUT:"@, id, full_command),
    ) + lines::shown_output(styles, status.stdout@);
    let stderr = encode_utf8(
        lines::script_output_header(styles, style, "STDERR:"@, id, full_command),
    ) + lines::shown_output(styles, status.stderr@);
    let none = Seq::<u8>::empty();
    assert(none + stderr =~= stderr);
    assert(stdout + none =~= stdout);
    assert(none + none =~= none);
    assert(none + encode_utf8("\n"@) =~= encode_utf8("\n"@));
}

// ---
// Tests that finished
// ---

/// The outcome of the last attempt alone decides which setting for test output holds: if it passed,
/// leaky or not, the one for successes, and otherwise the one for failures. The other one does not
/// matter, neither for what is written nor for what is kept, and whatever the attempts came to.
pub proof fn law_last_result_selects_the_setting<'a>(
    r: TestReporterImpl<'a>,
    kind: TestEventKind<'a>,
    alone: TestEventKind<'a>,
    entries: Seq<Entry<'a>>,
)
    requires
        kind matches TestEventKind::TestFinished {
            test_instance: t1,
            run_statuses: s1,
            success_output,
            failure_output,
            ..
        } && (alone matches TestEventKind::TestFinished {
            test_instance: t2,
            run_statuses: s2,
            success_output: a,
            failure_output: b,
            ..
        } && t1 == t2 && s1 == s2 && a == b && a == if s1.last_status.result
            == ExecutionResult::Pass || s1.last_status.result == ExecutionResult::Leak {
            success_output
        } else {
            failure_output
        }),
    ensures
        report::event_output(r, kind, entries) == report::event_output(r, alone, entries),
        report::kept_entries(r.final_status_level, kind) == report::kept_entries(
            r.final_status_level,
            alone,
        ),
        report::accepts_event(r, kind) == report::accepts_event(r, alone),
{
}

/// What is written for a test that finished, with one setting for its output: nothing below the level
/// for its outcome; otherwise its line, and then its output if the setting is to show it immediately,
/// at the end too or not, unless a signal or an interrupt has stopped the run.
pub proof fn law_output_is_shown_right_away<'a>(
    r: TestReporterImpl<'a>,
    kind: TestEventKind<'a>,
    display: TestOutputDisplay,
    entries: Seq<Entry<'a>>,
)
    requires
        kind matches TestEventKind::TestFinished { success_output, failure_output, .. }
            && success_output == display && failure_output == display,
    ensures
        kind matches TestEventKind::TestFinished { test_instance, run_statuses, .. } ==> {
            let output = report::event_output(r, kind, entries);
            let line = encode_utf8(
                lines::status_line(r.styles, r.binary_id_width, test_instance, run_statuses),
            );
            let captured = lines::stdout_stderr(
                r.styles,
                r.binary_id_width,
                test_instance,
                run_statuses.last_status,
                false,
            );
            let is_shown = r.status_level.rank() >= run_statuses.status_level.rank();
            let right_away = display == TestOutputDisplay::Immediate || display
                == TestOutputDisplay::ImmediateFinal;
            &&& !is_shown ==> output == Seq::<u8>::empty()
            &&& is_shown && right_away && !is_silenced(r) ==> output == line + captured
            &&& is_shown && !right_away ==> output == line
            &&& is_shown && is_silenced(r) ==> output == line
        },
{
    if let TestEventKind::TestFinished { test_instance, run_statuses, .. } = kind {
        let line = encode_utf8(
            lines::status_line(r.styles, r.binary_id_width, test_instance, run_statuses),
        );
        assert(line + Seq::<u8>::empty() =~= line);
    }
}

/// Which tests that finished are kept for the end of the run. If the setting for the test's outcome
/// is to show output at the end, immediately too or not, then exactly one entry is kept, with the
/// test, its statuses and that setting, whatever the level. If it is not, then that one is kept
/// exactly if the final status level is at least that of the test.
pub proof fn law_tests_are_kept_for_the_end(level: FinalStatusLevel, kind: TestEventKind)
    ensures
        kind matches TestEventKind::TestFinished {
            test_instance,
            success_output,
            failure_output,
            run_statuses,
            ..
        } ==> {
            let result = run_statuses.last_status.result;
            let display = if result == ExecutionResult::Pass || result == ExecutionResult::Leak {
                success_output
            } else {
                failure_output
            };
            let entry = (
                test_instance,
                FinalOutput::Executed { run_statuses, test_output_display: display },
            );
            let kept = report::kept_entries(level, kind);
            &&& display == TestOutputDisplay::Final ==> kept == seq![entry]
            &&& display == TestOutputDisplay::ImmediateFinal ==> kept == seq![entry]
            &&& display == TestOutputDisplay::Immediate || display == TestOutputDisplay::Never ==> {
                &&& level.rank() >= run_statuses.final_status_level.rank() ==> kept == seq![entry]
                &&& level.rank() < run_statuses.final_status_level.rank() ==> kept.len() == 0
            }
        },
{
}

/// Skipped tests are kept from the final level for skipped tests on, with the reason.
pub proof fn law_skipped_tests_are_kept_for_the_end(level: FinalStatusLevel, kind: TestEventKind)
    ensures
        kind matches TestEventKind::TestSkipped { test_instance, reason } ==> {
            let kept = report::kept_entries(level, kind);
            if level == FinalStatusLevel::Skip || level == FinalStatusLevel::Leak || level
                == FinalStatusLevel::Pass || level == FinalStatusLevel::All {
                kept == seq![(test_instance, FinalOutput::Skipped(reason))]
            } else {
                kept.len() == 0
            }
        },
{
}

/// The line for a test that finished: its outcome, the time that the last attempt took, the test, and
/// on Windows a line with the system's message on an abort. A first attempt that failed is named by
/// the long text for its result, and a later one by its number and the short text.
pub proof fn law_lines_of_finished_tests(
    styles: Styles,
    width: usize,
    t: TestInstance,
    statuses: ExecutionStatuses,
)
    ensures
        ({
            let last = statuses.last_status;
            let n = text::decimal(last.retry_data.attempt as nat);
            let failure = if last.retry_data.attempt == 1 {
                runner::status_text(last.result)
            } else {
                "TRY "@ + n + " "@ + runner::short_status_text(last.result)
            };
            let time = "["@ + text::pad_left(last.time_taken.seconds_text@, 8) + "s] "@;
            let rest = time + test(styles, width, t) + "\n"@ + aborted(styles, last.result);
            let line = lines::status_line(styles, width, t, statuses);
            let final_line = lines::final_status_line(styles, width, t, statuses);
            match statuses.description {
                ExecutionDescription::Success => {
                    &&& last.result == ExecutionResult::Leak ==> line == word(
                        styles.skip,
                        "LEAK"@,
                    ) + rest
                    &&& last.result != ExecutionResult::Leak ==> line == word(
                        styles.pass,
                        "PASS"@,
                    ) + rest
                    &&& !last.is_slow ==> final_line == line
                    &&& last.is_slow && last.result == ExecutionResult::Leak ==> final_line == word(
                        styles.skip,
                        "SLOW + LEAK"@,
                    ) + rest
                    &&& last.is_slow && last.result != ExecutionResult::Leak ==> final_line == word(
                        styles.skip,
                        "SLOW"@,
                    ) + rest
                },
                ExecutionDescription::Flaky => {
                    &&& line == word(styles.skip, "TRY "@ + n + " "@ + "PASS"@) + rest
                    &&& final_line == word(
                        styles.skip,
                        "FLAKY "@ + n + "/"@ + text::decimal(last.retry_data.total_attempts as nat),
                    ) + rest
                },
                ExecutionDescription::Failure => {
                    &&& line == word(styles.fail, failure) + rest
                    &&& final_line == line
                },
            }
        }),
{
    let last = statuses.last_status;
    let time = lines::duration_text(last.time_taken);
    let message = lines::abort_message_line(styles, last.result);
    reveal_strlit("");
    lemma_aborted(styles, last.result);
    let rest = time + test(styles, width, t) + "\n"@ + message;
    let cell = lines::outcome_cell(styles, statuses);
    assert(lines::status_line(styles, width, t, statuses) =~= cell + rest);
    let final_cell = lines::final_outcome_cell(styles, statuses);
    assert(lines::final_status_line(styles, width, t, statuses) =~= final_cell + rest);
}

/// The line with the system's message on an abort on Windows, and nothing for any other result.
pub open spec fn aborted(styles: Styles, result: ExecutionResult) -> Seq<char> {
    match result {
        ExecutionResult::Fail { abort_status: Some(AbortStatus::WindowsNtStatus { message }), .. } => {
            word(styles.fail, "Message"@) + "[         ] "@ + "code "@ + message@ + "\n"@
        },
        _ => seq![],
    }
}

proof fn lemma_aborted(styles: Styles, result: ExecutionResult)
    ensures
        lines::abort_message_line(styles, result) == aborted(styles, result),
{
    reveal_strlit("");
    assert(""@ =~= Seq::<char>::empty());
}

/// A test that is shown at the end of the run is shown by its final line, if its output is shown
/// there or its level is, and by its output if that is shown there. A skipped test is shown by the
/// same line as when it was skipped.
pub proof fn law_entries_at_the_end(
    styles: Styles,
    width: usize,
    level: FinalStatusLevel,
    entry: Entry,
)
    ensures
        entry.1 is Skipped ==> report::entry_output(styles, width, level, entry) == encode_utf8(
            word(styles.skip, "SKIP"@) + "[         ] "@ + test(styles, width, entry.0) + "\n"@,
        ),
        entry.1 matches FinalOutput::Executed { run_statuses, test_output_display } ==> {
            let output = report::entry_output(styles, width, level, entry);
            let line = encode_utf8(
                lines::final_status_line(styles, width, entry.0, run_statuses),
            );
            let captured = lines::stdout_stderr(
                styles,
                width,
                entry.0,
                run_statuses.last_status,
                false,
            );
            match test_output_display {
                TestOutputDisplay::Final | TestOutputDisplay::ImmediateFinal => output == line
                    + captured,
                TestOutputDisplay::Immediate | TestOutputDisplay::Never => {
                    &&& level.rank() >= run_statuses.final_status_level.rank() ==> output == line
                    &&& level.rank() < run_statuses.final_status_level.rank() ==> output.len() == 0
                },
            }
        },
{
    if let FinalOutput::Executed { run_statuses, .. } = entry.1 {
        let line = encode_utf8(lines::final_status_line(styles, width, entry.0, run_statuses));
        assert(line + Seq::<u8>::empty() =~= line);
    }
}

/// At the end of the run the entries are shown one after the other, each on its own.
pub proof fn law_entries_are_shown_one_by_one(
    styles: Styles,
    width: usize,
    level: FinalStatusLevel,
    a: Seq<Entry>,
    b: Seq<Entry>,
    entry: Entry,
)
    ensures
        report::entries_output(styles, width, level, Seq::<Entry>::empty()).len() == 0,
        report::entries_output(styles, width, level, seq![entry]) == report::entry_output(
            styles,
            width,
            level,
            entry,
        ),
        report::entries_output(styles, width, level, a + b) == report::entries_output(
            styles,
            width,
            level,
            a,
        ) + report::entries_output(styles, width, level, b),
    decreases b.len(),
{
    let one = seq![entry];
    reveal_with_fuel(report::entries_output, 2);
    assert(one.drop_last() =~= Seq::<Entry>::empty());
    let of_entry = report::entry_output(styles, width, level, entry);
    assert(Seq::<u8>::empty() + of_entry =~= of_entry);
    let of_a = report::entries_output(styles, width, level, a);
    if b.len() == 0 {
        assert(a + b =~= a);
        assert(of_a + Seq::<u8>::empty() =~= of_a);
    } else {
        law_entries_are_shown_one_by_one(styles, width, level, a, b.drop_last(), entry);
        assert((a + b).drop_last() =~= a + b.drop_last());
        assert((a + b).last() == b.last());
        let of_last = report::entry_output(styles, width, level, b.last());
        let of_rest = report::entries_output(styles, width, level, b.drop_last());
        assert(of_a + of_rest + of_last =~= of_a + (of_rest + of_last));
    }
}

// ---
// The other events
// ---

/// The line for the start of a run: how many tests are run from how many binaries and, if there are
/// any, how many are skipped.
pub proof fn law_start_of_a_run<'a>(
    r: TestReporterImpl<'a>,
    kind: TestEventKind<'a>,
    entries: Seq<Entry<'a>>,
)
    ensures
        kind matches TestEventKind::RunStarted { test_list, .. } ==> {
            let s = r.styles;
            let line = word(s.pass, "Starting"@) + number(s, test_list.run_count) + " "@ + (
            if test_list.run_count == 1 {
                "test"@
            } else {
                "tests"@
            }) + " across "@ + number(s, test_list.binary_count) + " "@ + (
            if test_list.binary_count == 1 {
                "binary"@
            } else {
                "binaries"@
            });
            let output = report::event_output(r, kind, entries);
            &&& test_list.skip_count == 0 ==> output == encode_utf8(line + "\n"@)
            &&& test_list.skip_count > 0 ==> output == encode_utf8(
                line + (" ("@ + number(s, test_list.skip_count) + " skipped)"@) + "\n"@,
            )
        },
{
    if let TestEventKind::RunStarted { test_list, .. } = kind {
        reveal_strlit("");
        let s = r.styles;
        let line = word(s.pass, "Starting"@) + number(s, test_list.run_count) + " "@ + (
        if test_list.run_count == 1 {
            "test"@
        } else {
            "tests"@
        }) + " across "@ + number(s, test_list.binary_count) + " "@ + (if test_list.binary_count
            == 1 {
            "binary"@
        } else {
            "binaries"@
        });
        assert(line + ""@ =~= line);
    }
}

/// The lines for setup scripts: each is named with its command and, when it starts and when it
/// finishes, with its number, counted from one. That it is slow is said from the level for slow tests
/// on; that it is about to be terminated is said at every level. The output of a script is shown if
/// and only if it failed.
pub proof fn law_setup_scripts<'a>(
    r: TestReporterImpl<'a>,
    kind: TestEventKind<'a>,
    entries: Seq<Entry<'a>>,
)
    ensures
        kind matches TestEventKind::SetupScriptStarted {
            index,
            total,
            script_id,
            command,
            args,
            ..
        } ==> report::event_output(r, kind, entries) == encode_utf8(
            word(r.styles.pass, "SETUP"@) + ("["@ + text::pad_left(
                text::decimal((index + 1) as nat) + "/"@ + text::decimal(total as nat),
                9,
            ) + "] "@) + script(r.styles, script_id, command, args) + "\n"@,
        ),
        kind matches TestEventKind::SetupScriptSlow {
            script_id,
            command,
            args,
            elapsed,
            will_terminate,
        } ==> {
            let rest = "[>"@ + text::pad_left(elapsed.seconds_text@, 7) + "s] "@ + script(
                r.styles,
                script_id,
                command,
                args,
            ) + "\n"@;
            let output = report::event_output(r, kind, entries);
            let low = r.status_level == StatusLevel::NoOutput || r.status_level == StatusLevel::Fail
                || r.status_level == StatusLevel::Retry;
            &&& will_terminate ==> output == encode_utf8(word(r.styles.fail, "TERMINATING"@) + rest)
            &&& !will_terminate && !low ==> output == encode_utf8(
                word(r.styles.skip, "SETUP SLOW"@) + rest,
            )
            &&& !will_terminate && low ==> output == encode_utf8(rest)
        },
        kind matches TestEventKind::SetupScriptFinished {
            index,
            total,
            script_id,
            command,
            args,
            run_status,
            ..
        } ==> {
            let (style, status) = match run_status.result {
                ExecutionResult::Pass => (r.styles.pass, "SETUP PASS"@),
                ExecutionResult::Leak => (r.styles.skip, "SETUP LEAK"@),
                _ => (r.styles.fail, "SETUP "@ + runner::short_status_text(run_status.result)),
            };
            let line = encode_utf8(
                word(style, status) + ("["@ + text::pad_left(
                    text::decimal((index + 1) as nat) + "/"@ + text::decimal(total as nat),
                    9,
                ) + "] "@) + script(r.styles, script_id, command, args) + "\n"@,
            );
            let output = report::event_output(r, kind, entries);
            if passed(run_status.result) {
                output == line
            } else {
                output == line + lines::script_stdout_stderr(
                    r.styles,
                    script_id,
                    shell::command_line(shell::command_words(command, args)),
                    run_status,
                )
            }
        },
{
    if let TestEventKind::SetupScriptSlow { script_id, command, args, elapsed, will_terminate } =
        kind {
        reveal_strlit("");
        let cell = report::script_slow_cell(r.styles, r.status_level, will_terminate);
        let rest = "[>"@ + text::pad_left(elapsed.seconds_text@, 7) + "s] "@ + script(
            r.styles,
            script_id,
            command,
            args,
        ) + "\n"@;
        let full_command = shell::command_line(shell::command_words(command, args));
        let line = report::script_slow_text(
            r.styles,
            r.status_level,
            script_id,
            full_command,
            elapsed,
            will_terminate,
        );
        assert(line =~= cell + rest);
        assert(""@ + rest =~= rest);
    }
    if let TestEventKind::SetupScriptFinished {
        index,
        total,
        script_id,
        command,
        args,
        run_status,
        ..
    } = kind {
        let line = encode_utf8(
            lines::script_status_line(
                r.styles,
                script_id,
                index,
                total,
                shell::command_line(shell::command_words(command, args)),
                run_status.result,
            ),
        );
        assert(line + Seq::<u8>::empty() =~= line);
    }
}

/// The line for a test that starts: in no-capture mode only.
pub proof fn law_started_tests<'a>(
    r: TestReporterImpl<'a>,
    kind: TestEventKind<'a>,
    entries: Seq<Entry<'a>>,
)
    ensures
        kind matches TestEventKind::TestStarted { test_instance, .. } ==> {
            let output = report::event_output(r, kind, entries);
            if r.no_capture {
                output == encode_utf8(
                    r.styles.pass.painted(text::pad_left("START"@, 12)) + "             "@ + test(
                        r.styles,
                        r.binary_id_width,
                        test_instance,
                    ) + "\n"@,
                )
            } else {
                output.len() == 0
            }
        },
{
}

/// The line for a slow test. It is shown from some level on: the one for slow tests if it goes on,
/// the one for failures if it is about to be terminated on its last attempt, and the one for retries
/// if it is on an earlier one. The number of the attempt is shown if there may be others and, for
/// tests about to be terminated, above that level.
pub proof fn law_slow_tests<'a>(
    r: TestReporterImpl<'a>,
    kind: TestEventKind<'a>,
    entries: Seq<Entry<'a>>,
)
    ensures
        kind matches TestEventKind::TestSlow {
            test_instance,
            retry_data,
            elapsed,
            will_terminate,
        } ==> {
            let rest = "[>"@ + text::pad_left(elapsed.seconds_text@, 7) + "s] "@ + test(
                r.styles,
                r.binary_id_width,
                test_instance,
            ) + "\n"@;
            let attempt = "TRY "@ + text::decimal(retry_data.attempt as nat) + " "@;
            let several = retry_data.total_attempts > 1;
            let is_last = retry_data.attempt >= retry_data.total_attempts;
            let output = report::event_output(r, kind, entries);
            let level = r.status_level;
            let is_low = level == StatusLevel::NoOutput || level == StatusLevel::Fail;
            let is_lower_than_slow = is_low || level == StatusLevel::Retry;
            &&& !will_terminate && is_lower_than_slow ==> output.len() == 0
            &&& !will_terminate && !is_lower_than_slow ==> output == encode_utf8(
                word(
                    r.styles.skip,
                    if several {
                        attempt + "SLOW"@
                    } else {
                        "SLOW"@
                    },
                ) + rest,
            )
            &&& will_terminate && is_last && level == StatusLevel::NoOutput ==> output.len() == 0
            &&& will_terminate && is_last && level != StatusLevel::NoOutput ==> output
                == encode_utf8(
                word(
                    r.styles.fail,
                    if several && level != StatusLevel::Fail {
                        attempt + "TRMNTG"@
                    } else {
                        "TERMINATING"@
                    },
                ) + rest,
            )
            &&& will_terminate && !is_last && is_low ==> output.len() == 0
            &&& will_terminate && !is_last && !is_low ==> output == encode_utf8(
                word(
                    r.styles.retry,
                    if several && level != StatusLevel::Retry {
                        attempt + "TRMNTG"@
                    } else {
                        "TERMINATING"@
                    },
                ) + rest,
            )
        },
{
    if let TestEventKind::TestSlow { test_instance, retry_data, elapsed, will_terminate } = kind {
        let cell = report::test_slow_cell(r.styles, r.status_level, retry_data, will_terminate);
        let rest = "[>"@ + text::pad_left(elapsed.seconds_text@, 7) + "s] "@ + test(
            r.styles,
            r.binary_id_width,
            test_instance,
        ) + "\n"@;
        let line = report::test_slow_text(
            r.styles,
            r.binary_id_width,
            r.status_level,
            test_instance,
            retry_data,
            elapsed,
            will_terminate,
        );
        assert(line =~= cell + rest);
    }
}

/// What is shown of an attempt that will be retried: nothing below the level for retries; otherwise a
/// line with its number and its result, its output if failures are shown immediately, and a line for
/// the delay if there is one, with the number of the next attempt.
pub proof fn law_attempts_that_will_be_retried<'a>(
    r: TestReporterImpl<'a>,
    kind: TestEventKind<'a>,
    entries: Seq<Entry<'a>>,
)
    ensures
        kind matches TestEventKind::TestAttemptFailedWillRetry {
            test_instance,
            run_status,
            delay_before_next_attempt,
            failure_output,
        } ==> {
            let shown = test(r.styles, r.binary_id_width, test_instance) + "\n"@;
            let data = run_status.retry_data;
            let line = encode_utf8(
                word(
                    r.styles.retry,
                    "TRY "@ + text::decimal(data.attempt as nat) + " "@ + runner::short_status_text(
                        run_status.result,
                    ),
                ) + ("["@ + text::pad_left(run_status.time_taken.seconds_text@, 8) + "s] "@) + shown,
            );
            let captured = lines::stdout_stderr(
                r.styles,
                r.binary_id_width,
                test_instance,
                run_status,
                true,
            );
            let delay = encode_utf8(
                word(
                    r.styles.retry,
                    "DELAY "@ + text::decimal((data.attempt + 1) as nat) + "/"@ + text::decimal(
                        data.total_attempts as nat,
                    ),
                ) + ("by "@ + text::pad_left(delay_before_next_attempt.seconds_text@, 7) + "s "@)
                    + shown,
            );
            let output = report::event_output(r, kind, entries);
            let is_shown = r.status_level != StatusLevel::NoOutput && r.status_level
                != StatusLevel::Fail;
            let right_away = failure_output == TestOutputDisplay::Immediate || failure_output
                == TestOutputDisplay::ImmediateFinal;
            let is_delayed = delay_before_next_attempt.secs > 0
                || delay_before_next_attempt.subsec_nanos > 0;
            &&& !is_shown ==> output.len() == 0
            &&& is_shown && right_away && is_delayed ==> output == line + captured + delay
            &&& is_shown && right_away && !is_delayed ==> output == line + captured
            &&& is_shown && !right_away && is_delayed ==> output == line + delay
            &&& is_shown && !right_away && !is_delayed ==> output == line
        },
{
    if let TestEventKind::TestAttemptFailedWillRetry {
        test_instance,
        run_status,
        delay_before_next_attempt,
        failure_output,
    } = kind {
        let t = test(r.styles, r.binary_id_width, test_instance);
        let data = run_status.retry_data;
        let cell = word(
            r.styles.retry,
            "TRY "@ + text::decimal(data.attempt as nat) + " "@ + runner::short_status_text(
                run_status.result,
            ),
        );
        let time = "["@ + text::pad_left(run_status.time_taken.seconds_text@, 8) + "s] "@;
        assert(cell + time + t + "\n"@ =~= cell + time + (t + "\n"@));
        let delay_cell = word(
            r.styles.retry,
            "DELAY "@ + text::decimal((data.attempt + 1) as nat) + "/"@ + text::decimal(
                data.total_attempts as nat,
            ),
        );
        let by = "by "@ + text::pad_left(delay_before_next_attempt.seconds_text@, 7) + "s "@;
        assert(delay_cell + by + t + "\n"@ =~= delay_cell + by + (t + "\n"@));
        let line = encode_utf8(cell + time + (t + "\n"@));
        let captured = lines::stdout_stderr(
            r.styles,
            r.binary_id_width,
            test_instance,
            run_status,
            true,
        );
        let none = Seq::<u8>::empty();
        assert(line + none =~= line);
        assert(line + captured + none =~= line + captured);
    }
}

/// The line for a retry that starts, and the one for a test that is skipped.
pub proof fn law_retries_and_skipped_tests<'a>(
    r: TestReporterImpl<'a>,
    kind: TestEventKind<'a>,
    entries: Seq<Entry<'a>>,
)
    ensures
        kind matches TestEventKind::TestRetryStarted { test_instance, retry_data } ==> {
            let output = report::event_output(r, kind, entries);
            if r.status_level == StatusLevel::NoOutput || r.status_level == StatusLevel::Fail {
                output.len() == 0
            } else {
                output == encode_utf8(
                    word(
                        r.styles.retry,
                        "RETRY "@ + text::decimal(retry_data.attempt as nat) + "/"@ + text::decimal(
                            retry_data.total_attempts as nat,
                        ),
                    ) + "[         ] "@ + test(r.styles, r.binary_id_width, test_instance) + "\n"@,
                )
            }
        },
        kind matches TestEventKind::TestSkipped { test_instance, .. } ==> {
            let output = report::event_output(r, kind, entries);
            if r.status_level == StatusLevel::Skip || r.status_level == StatusLevel::All {
                output == encode_utf8(
                    word(r.styles.skip, "SKIP"@) + "[         ] "@ + test(
                        r.styles,
                        r.binary_id_width,
                        test_instance,
                    ) + "\n"@,
                )
            } else {
                output.len() == 0
            }
        },
{
}

/// The words for each reason to cancel a run.
pub proof fn law_reasons_are_named()
    ensures
        CancelReason::SetupScriptFailure.text() == "setup script failure"@,
        CancelReason::TestFailure.text() == "test failure"@,
        CancelReason::ReportError.text() == "error"@,
        CancelReason::Signal.text() == "signal"@,
        CancelReason::Interrupt.text() == "interrupt"@,
{
}

/// What is still running: setup scripts or, if there are none, tests, or nothing.
pub open spec fn running(styles: Styles, scripts: usize, tests: usize, verb: Seq<char>) -> Seq<
    char,
> {
    if scripts == 0 && tests == 0 {
        seq![]
    } else if scripts == 0 {
        ": "@ + number(styles, tests) + " "@ + (if tests == 1 {
            "test"@
        } else {
            "tests"@
        }) + verb
    } else {
        ": "@ + number(styles, scripts) + " "@ + (if scripts == 1 {
            "setup script"@
        } else {
            "setup scripts"@
        }) + verb
    }
}

/// The lines for a run that is canceled, paused or continued, at every level: why, and what is
/// running.
pub proof fn law_interruptions_of_a_run<'a>(
    r: TestReporterImpl<'a>,
    kind: TestEventKind<'a>,
    entries: Seq<Entry<'a>>,
)
    ensures
        kind matches TestEventKind::RunBeginCancel { setup_scripts_running, running: n, reason }
            ==> report::event_output(r, kind, entries) == encode_utf8(
            word(r.styles.fail, "Canceling"@) + "due to "@ + r.styles.fail.painted(reason.text())
                + running(r.styles, setup_scripts_running, n, " still running"@) + "\n"@,
        ),
        kind matches TestEventKind::RunPaused { setup_scripts_running, running: n }
            ==> report::event_output(r, kind, entries) == encode_utf8(
            word(r.styles.pass, "Pausing"@) + "due to "@ + r.styles.count.painted("signal"@)
                + running(r.styles, setup_scripts_running, n, " running"@) + "\n"@,
        ),
        kind matches TestEventKind::RunContinued { setup_scripts_running, running: n }
            ==> report::event_output(r, kind, entries) == encode_utf8(
            word(r.styles.pass, "Continuing"@) + "due to "@ + r.styles.count.painted("signal"@)
                + running(r.styles, setup_scripts_running, n, " running"@) + "\n"@,
        ),
{
    reveal_strlit("");
    assert(""@ =~= Seq::<char>::empty());
}

/// The end of a run: a rule, the summary in the style of what passed or failed, and, unless a signal
/// or an interrupt has stopped the run, the entries.
#[verifier::rlimit(40)]
pub proof fn law_end_of_a_run<'a>(
    r: TestReporterImpl<'a>,
    kind: TestEventKind<'a>,
    entries: Seq<Entry<'a>>,
)
    ensures
        kind matches TestEventKind::RunFinished { elapsed, run_stats, .. } ==> {
            let front = "------------\n"@ + word(
                if run_stats.has_failure {
                    r.styles.fail
                } else {
                    r.styles.pass
                },
                "Summary"@,
            ) + ("["@ + text::pad_left(elapsed.seconds_text@, 8) + "s] "@) + number(
                r.styles,
                run_stats.finished_count,
            );
            let back = " run: "@ + crate::summary::summary_text(run_stats, r.styles) + "\n"@;
            let lines = if run_stats.finished_count != run_stats.initial_run_count {
                front + "/"@ + number(r.styles, run_stats.initial_run_count) + " tests"@ + back
            } else if run_stats.finished_count == 1 {
                front + " test"@ + back
            } else {
                front + " tests"@ + back
            };
            let output = report::event_output(r, kind, entries);
            &&& is_silenced(r) ==> output == encode_utf8(lines)
            &&& !is_silenced(r) ==> output == encode_utf8(lines) + report::entries_output(
                r.styles,
                r.binary_id_width,
                r.final_status_level,
                entries,
            )
        },
{
    if let TestEventKind::RunFinished { elapsed, run_stats, .. } = kind {
        reveal_strlit("");
        reveal_strlit(" ");
        reveal_strlit("test");
        reveal_strlit("tests");
        reveal_strlit(" test");
        reveal_strlit(" tests");
        assert(" "@ + "test"@ =~= " test"@);
        assert(" "@ + "tests"@ =~= " tests"@);
        let front = "------------\n"@ + word(
            if run_stats.has_failure {
                r.styles.fail
            } else {
                r.styles.pass
            },
            "Summary"@,
        ) + ("["@ + text::pad_left(elapsed.seconds_text@, 8) + "s] "@) + number(
            r.styles,
            run_stats.finished_count,
        );
        let initial = number(r.styles, run_stats.initial_run_count);
        let summary = crate::summary::summary_text(run_stats, r.styles);
        let back = " run: "@ + summary + "\n"@;
        let text = report::run_finished_text(r.styles, elapsed, run_stats);
        if run_stats.finished_count != run_stats.initial_run_count {
            assert(text =~= front + "/"@ + initial + " tests"@ + back);
        } else if run_stats.finished_count == 1 {
            assert(text =~= front + " test"@ + back);
        } else {
            assert(text =~= front + " tests"@ + back);
        }
        assert(encode_utf8(text) + Seq::<u8>::empty() =~= encode_utf8(text));
    }
}

// ---
// The state of a reporter
// ---

/// How an event changes a reporter. The settings stay. The cancel status changes when a run is
/// canceled, to the more severe reason. Entries are added at the end when a test finishes or is
/// skipped, and sorted when the run finishes, unless a signal or an interrupt has stopped it.
pub proof fn law_effects_of_events<'a>(
    before: TestReporterImpl<'a>,
    kind: TestEventKind<'a>,
    after: TestReporterImpl<'a>,
)
    requires
        report::event_effect(before, kind, after),
    ensures
        after.status_level == before.status_level,
        after.final_status_level == before.final_status_level,
        after.no_capture == before.no_capture,
        after.binary_id_width == before.binary_id_width,
        after.styles == before.styles,
        match kind {
            TestEventKind::RunBeginCancel { reason, .. } => after.cancel_status == levels::escalate(
                before.cancel_status,
                reason,
            ),
            _ => after.cancel_status == before.cancel_status,
        },
        match kind {
            TestEventKind::TestFinished { .. } | TestEventKind::TestSkipped { .. } => {
                after.final_outputs@ == before.final_outputs@ + report::kept_entries(
                    before.final_status_level,
                    kind,
                )
            },
            TestEventKind::RunFinished { .. } => if is_silenced(before) {
                after.final_outputs@ == before.final_outputs@
            } else {
                final_output::is_stable_sort(before.final_outputs@, after.final_outputs@)
            },
            _ => after.final_outputs@ == before.final_outputs@,
        },
{
}

/// At the end of a run, entries of a higher level come first, then those whose binary ID comes
/// first, then those whose name does.
pub proof fn law_order_at_the_end<'a>(
    before: TestReporterImpl<'a>,
    kind: TestEventKind<'a>,
    after: TestReporterImpl<'a>,
    i: int,
    j: int,
)
    requires
        report::event_effect(before, kind, after),
        kind is RunFinished,
        !is_silenced(before),
        0 <= i < j < after.final_outputs@.len(),
    ensures
        ({
            let a = after.final_outputs@[i];
            let b = after.final_outputs@[j];
            let binary_a = encode_utf8(a.0.suite_info.binary_id@);
            let binary_b = encode_utf8(b.0.suite_info.binary_id@);
            &&& a.1.level().rank() >= b.1.level().rank()
            &&& a.1.level() == b.1.level() ==> list::bytes_le(binary_a, binary_b)
            &&& a.1.level() == b.1.level() && binary_a == binary_b ==> list::bytes_le(
                encode_utf8(a.0.name@),
                encode_utf8(b.0.name@),
            )
        }),
{
    let a = after.final_outputs@[i];
    let b = after.final_outputs@[j];
    assert(final_output::key_le(final_output::key_of(a), final_output::key_of(b)));
    let binary_a = encode_utf8(a.0.suite_info.binary_id@);
    list::lemma_bytes_le_total(binary_a, binary_a);
}

/// Sorting loses no entry.
proof fn lemma_sorting_keeps(before: Seq<Entry>, after: Seq<Entry>, entry: Entry)
    requires
        final_output::is_stable_sort(before, after),
        before.contains(entry),
    ensures
        after.contains(entry),
{
    let i = choose|i: int| 0 <= i < before.len() && before[i] == entry;
    let key = final_output::key_of(entry);
    before.lemma_filter_contains(|e: Entry| final_output::key_of(e) == key, i);
    let found = final_output::with_key(before, key);
    let m = choose|m: int| 0 <= m < found.len() && found[m] == entry;
    assert(final_output::with_key(after, key) == found);
    final_output::lemma_with_key_members(after, key, m);
}

/// Until the run finishes, no entry is lost.
proof fn lemma_entries_stay<'a>(
    states: Seq<TestReporterImpl<'a>>,
    kinds: Seq<TestEventKind<'a>>,
    i: int,
    n: int,
    entry: Entry<'a>,
)
    requires
        laws::is_run(states, kinds),
        0 <= i <= n <= kinds.len(),
        forall|j: int| 0 <= j < n ==> !(#[trigger] kinds[j] is RunFinished),
        states[i].final_outputs@.contains(entry),
    ensures
        states[n].final_outputs@.contains(entry),
    decreases n - i,
{
    if i < n {
        assert(report::event_effect(states[i], kinds[i], states[i + 1]));
        let before = states[i].final_outputs@;
        let after = states[i + 1].final_outputs@;
        let m = choose|m: int| 0 <= m < before.len() && before[m] == entry;
        assert(after[m] == entry);
        lemma_entries_stay(states, kinds, i + 1, n, entry);
    }
}

/// What is shown of an entry occurs in what is shown of all of them.
proof fn lemma_entry_occurs(
    styles: Styles,
    width: usize,
    level: FinalStatusLevel,
    entries: Seq<Entry>,
    entry: Entry,
)
    requires
        entries.contains(entry),
    ensures
        occurs_in(
            report::entry_output(styles, width, level, entry),
            report::entries_output(styles, width, level, entries),
        ),
{
    let m = choose|m: int| 0 <= m < entries.len() && entries[m] == entry;
    let front = entries.take(m);
    let back = entries.skip(m + 1);
    law_entries_are_shown_one_by_one(styles, width, level, front + seq![entry], back, entry);
    law_entries_are_shown_one_by_one(styles, width, level, front, seq![entry], entry);
    assert(entries =~= front + seq![entry] + back);
    lemma_occurs(
        report::entries_output(styles, width, level, front),
        report::entry_output(styles, width, level, entry),
        report::entries_output(styles, width, level, back),
    );
}

/// What occurs in the second of two texts occurs in both together.
proof fn lemma_occurs_behind<A>(part: Seq<A>, front: Seq<A>, back: Seq<A>)
    requires
        occurs_in(part, back),
    ensures
        occurs_in(part, front + back),
{
    let i = choose|i: int|
        0 <= i && i + part.len() <= back.len() && #[trigger] back.subrange(i, i + part.len())
            == part;
    let j = front.len() + i;
    assert((front + back).subrange(j, j + part.len()) =~= back.subrange(i, i + part.len()));
}

/// A test that finished in the course of a run is shown when the run finishes, unless a signal or an
/// interrupt has stopped it: if its output is to be shown at the end, immediately too or not, by its
/// final line and its output, whatever the levels; and otherwise by its final line, if the final
/// status level is at least that of the test.
pub proof fn law_finished_tests_are_shown_at_the_end<'a>(
    states: Seq<TestReporterImpl<'a>>,
    kinds: Seq<TestEventKind<'a>>,
    i: int,
    n: int,
)
    requires
        laws::is_run(states, kinds),
        0 <= i < n < kinds.len(),
        forall|j: int| 0 <= j < n ==> !(#[trigger] kinds[j] is RunFinished),
        kinds[n] is RunFinished,
        !is_silenced(states[n]),
    ensures
        kinds[i] matches TestEventKind::TestFinished {
            test_instance,
            success_output,
            failure_output,
            run_statuses,
            ..
        } ==> {
            let result = run_statuses.last_status.result;
            let display = if result == ExecutionResult::Pass || result == ExecutionResult::Leak {
                success_output
            } else {
                failure_output
            };
            let r = states[n];
            let line = encode_utf8(
                lines::final_status_line(r.styles, r.binary_id_width, test_instance, run_statuses),
            );
            let captured = lines::stdout_stderr(
                r.styles,
                r.binary_id_width,
                test_instance,
                run_statuses.last_status,
                false,
            );
            let output = report::event_output(r, kinds[n], states[n + 1].final_outputs@);
            &&& display == TestOutputDisplay::Final || display == TestOutputDisplay::ImmediateFinal
                ==> occurs_in(line + captured, output)
            &&& r.final_status_level.rank() >= run_statuses.final_status_level.rank() && (display
                == TestOutputDisplay::Immediate || display == TestOutputDisplay::Never)
                ==> occurs_in(line, output)
        },
{
    if let TestEventKind::TestFinished {
        test_instance,
        success_output,
        failure_output,
        run_statuses,
        ..
    } = kinds[i] {
        let r = states[n];
        let level = r.final_status_level;
        laws::law_settings_stay(states, kinds, i);
        laws::law_settings_stay(states, kinds, n);
        law_tests_are_kept_for_the_end(level, kinds[i]);
        let kept = report::kept_entries(level, kinds[i]);
        assert(report::event_effect(states[i], kinds[i], states[i + 1]));
        assert(report::event_effect(states[n], kinds[n], states[n + 1]));
        if kept.len() > 0 {
            let entry = kept[0];
            let before = states[i].final_outputs@;
            assert(states[i + 1].final_outputs@[before.len() as int] == entry);
            lemma_entries_stay(states, kinds, i + 1, n, entry);
            let after = states[n + 1].final_outputs@;
            lemma_sorting_keeps(states[n].final_outputs@, after, entry);
            lemma_entry_occurs(r.styles, r.binary_id_width, level, after, entry);
            law_entries_at_the_end(r.styles, r.binary_id_width, level, entry);
            law_end_of_a_run(r, kinds[n], after);
            let shown = report::entries_output(r.styles, r.binary_id_width, level, after);
            let output = report::event_output(r, kinds[n], after);
            let summary = output.take(output.len() - shown.len());
            assert(output =~= summary + shown);
            lemma_occurs_behind(
                report::entry_output(r.styles, r.binary_id_width, level, entry),
                summary,
                shown,
            );
        }
    }
}

/// Ordinary events can be taken in: all that have nothing to do with setup scripts or attempts, and
/// those where numbers have no more than 16 digits and only failed attempts are retried.
pub proof fn law_ordinary_events_are_accepted(r: TestReporterImpl, kind: TestEventKind)
    requires
        match kind {
            TestEventKind::SetupScriptStarted { index, .. } => index < usize::MAX,
            TestEventKind::SetupScriptFinished { index, .. } => index < usize::MAX,
            TestEventKind::TestAttemptFailedWillRetry { run_status, .. } => {
                &&& !passed(run_status.result)
                &&& run_status.retry_data.attempt < 10_000_000_000_000_000
                &&& run_status.retry_data.attempt < usize::MAX
            },
            TestEventKind::TestFinished { run_statuses, .. } => {
                run_statuses.last_status.retry_data.attempt < 10_000_000_000_000_000
            },
            TestEventKind::RunFinished { .. } => forall|i: int|
                0 <= i < r.final_outputs@.len() ==> ((#[trigger] r.final_outputs@[i]).1 matches
                    FinalOutput::Executed { run_statuses, .. }
                    ==> run_statuses.last_status.retry_data.attempt < 10_000_000_000_000_000),
            _ => true,
        },
    ensures
        report::accepts_event(r, kind),
{
    match kind {
        TestEventKind::TestAttemptFailedWillRetry { run_status, .. } => {
            lemma_attempt_fits(run_status.retry_data);
        },
        TestEventKind::TestFinished { run_statuses, .. } => {
            lemma_attempt_fits(run_statuses.last_status.retry_data);
        },
        TestEventKind::RunFinished { .. } => {
            assert forall|i: int| 0 <= i < r.final_outputs@.len() implies report::can_show_entry(
                #[trigger] r.final_outputs@[i],
            ) by {
                if let FinalOutput::Executed { run_statuses, .. } = r.final_outputs@[i].1 {
                    lemma_attempt_fits(run_statuses.last_status.retry_data);
                }
            }
        },
        _ => {},
    }
}

/// An attempt that passed cannot be said to be retried, where that would be shown.
pub proof fn law_passed_attempts_are_not_retried(r: TestReporterImpl, kind: TestEventKind)
    requires
        r.status_level != StatusLevel::NoOutput,
        r.status_level != StatusLevel::Fail,
        kind matches TestEventKind::TestAttemptFailedWillRetry { run_status, .. } && passed(
            run_status.result,
        ),
    ensures
        !report::accepts_event(r, kind),
{
}

/// The number of an attempt with up to 16 digits fits in a header.
proof fn lemma_attempt_fits(retry_data: RetryData)
    requires
        retry_data.attempt < 10_000_000_000_000_000,
    ensures
        lines::attempt_fits(retry_data),
{
    assert(vstd::arithmetic::power::pow(10, 16) == 10_000_000_000_000_000) by {
        reveal_with_fuel(vstd::arithmetic::power::pow, 17);
    }
    text::lemma_decimal_len(retry_data.attempt as nat, 16);
}

/// The times taken, passed so far and waited for, in their column.
pub proof fn law_times_are_shown(span: TimeSpan)
    ensures
        lines::duration_text(span) == "["@ + text::pad_left(span.seconds_text@, 8) + "s] "@,
        lines::slow_duration_text(span) == "[>"@ + text::pad_left(span.seconds_text@, 7) + "s] "@,
        lines::duration_by_text(span) == "by "@ + text::pad_left(span.seconds_text@, 7) + "s "@,
        span.seconds_text@.len() <= 7 ==> lines::slow_duration_text(span) == lines::duration_text(
            span,
        ).update(1, '>'),
{
    reveal_strlit("[");
    reveal_strlit("[>");
    if span.seconds_text@.len() <= 7 {
        assert(lines::slow_duration_text(span) =~= lines::duration_text(span).update(1, '>'));
    }
}

} // verus!
