//! How a reporter reacts to the events of a run.

use crate::event::{ScriptId, TestEvent, TestEventKind};
use crate::final_output;
use crate::final_output::{Entry, FinalOutput};
use crate::levels;
use crate::levels::{CancelReason, FinalStatusLevel, StatusLevel, TestOutputDisplay};
use crate::lines;
use crate::lines::TestReporterImpl;
use crate::list::{TestInstance, TestList};
use crate::runner;
use crate::runner::{
    ExecuteStatus, ExecutionStatuses, RetryData, RunStats, SetupScriptExecuteStatus, TimeSpan,
};
use crate::shell;
use crate::style::{Style, Styles};
use crate::summary;
use crate::text;
use vstd::prelude::*;
use vstd::string::*;
use vstd::utf8::*;

verus! {

/// The line for the start of a run.
pub open spec fn run_started_text(styles: Styles, test_list: TestList) -> Seq<char> {
    lines::status_cell(styles.pass, "Starting"@) + summary::styled_number(
        styles.count,
        test_list.run_count,
    ) + " "@ + summary::by_count(test_list.run_count, "test"@, "tests"@) + " across "@
        + summary::styled_number(styles.count, test_list.binary_count) + " "@ + summary::by_count(
        test_list.binary_count,
        "binary"@,
        "binaries"@,
    ) + skipped_text(styles, test_list.skip_count) + "\n"@
}

/// The number of tests that will be skipped, if there are any.
pub open spec fn skipped_text(styles: Styles, skip_count: usize) -> Seq<char> {
    if skip_count > 0 {
        " ("@ + summary::styled_number(styles.count, skip_count) + " skipped)"@
    } else {
        ""@
    }
}

/// The line for a setup script that started.
pub open spec fn script_started_text(
    styles: Styles,
    index: usize,
    total: usize,
    script_id: ScriptId,
    full_command: Seq<char>,
) -> Seq<char> {
    lines::status_cell(styles.pass, "SETUP"@) + lines::script_number_text(index, total)
        + lines::script_text(styles, script_id, full_command) + "\n"@
}

/// The status of a setup script that is slow.
pub open spec fn script_slow_cell(
    styles: Styles,
    status_level: StatusLevel,
    will_terminate: bool,
) -> Seq<char> {
    if !will_terminate && status_level.rank() >= StatusLevel::Slow.rank() {
        lines::status_cell(styles.skip, "SETUP SLOW"@)
    } else if will_terminate {
        lines::status_cell(styles.fail, "TERMINATING"@)
    } else {
        ""@
    }
}

/// The line for a setup script that is slow. Setup scripts are shown at every level; from the level
/// for slow tests on, the line says that the script is slow.
pub open spec fn script_slow_text(
    styles: Styles,
    status_level: StatusLevel,
    script_id: ScriptId,
    full_command: Seq<char>,
    elapsed: TimeSpan,
    will_terminate: bool,
) -> Seq<char> {
    script_slow_cell(styles, status_level, will_terminate) + lines::slow_duration_text(elapsed)
        + lines::script_text(styles, script_id, full_command) + "\n"@
}

/// What is written for a setup script that finished: its line and, if it failed, its output.
pub open spec fn script_finished_output(
    styles: Styles,
    index: usize,
    total: usize,
    script_id: ScriptId,
    full_command: Seq<char>,
    status: SetupScriptExecuteStatus,
) -> Seq<u8> {
    encode_utf8(
        lines::script_status_line(styles, script_id, index, total, full_command, status.result),
    ) + if status.result.success() {
        seq![]
    } else {
        lines::script_stdout_stderr(styles, script_id, full_command, status)
    }
}

/// The line for a test that started.
pub open spec fn test_started_text(styles: Styles, width: usize, instance: TestInstance) -> Seq<
    char,
> {
    styles.pass.painted(text::pad_left("START"@, 12)) + "             "@ + lines::instance_text(
        styles,
        width,
        instance,
    ) + "\n"@
}

/// The level at which a slow test is shown: that for slow tests if it goes on and, if it is about to
/// be terminated, that for failures on the last attempt and that for retries on an earlier one.
pub open spec fn slow_test_level(retry_data: RetryData, will_terminate: bool) -> StatusLevel {
    if !will_terminate {
        StatusLevel::Slow
    } else if retry_data.last_attempt() {
        StatusLevel::Fail
    } else {
        StatusLevel::Retry
    }
}

/// Returns the level at which a slow test is shown.
fn required_slow_level(retry_data: RetryData, will_terminate: bool) -> (r: StatusLevel)
    ensures
        r == slow_test_level(retry_data, will_terminate),
{
    if !will_terminate {
        StatusLevel::Slow
    } else if retry_data.is_last_attempt() {
        StatusLevel::Fail
    } else {
        StatusLevel::Retry
    }
}

/// The status of a test that is slow.
pub open spec fn test_slow_cell(
    styles: Styles,
    status_level: StatusLevel,
    retry_data: RetryData,
    will_terminate: bool,
) -> Seq<char> {
    if will_terminate {
        let required = slow_test_level(retry_data, will_terminate);
        let style = if retry_data.last_attempt() {
            styles.fail
        } else {
            styles.retry
        };
        if retry_data.total_attempts > 1 && status_level.rank() > required.rank() {
            lines::status_cell(style, lines::try_text(retry_data.attempt, "TRMNTG"@))
        } else {
            lines::status_cell(style, "TERMINATING"@)
        }
    } else if retry_data.total_attempts > 1 {
        lines::status_cell(styles.skip, lines::try_text(retry_data.attempt, "SLOW"@))
    } else {
        lines::status_cell(styles.skip, "SLOW"@)
    }
}

/// The line for a test that is slow.
pub open spec fn test_slow_text(
    styles: Styles,
    width: usize,
    status_level: StatusLevel,
    instance: TestInstance,
    retry_data: RetryData,
    elapsed: TimeSpan,
    will_terminate: bool,
) -> Seq<char> {
    test_slow_cell(styles, status_level, retry_data, will_terminate) + lines::slow_duration_text(
        elapsed,
    ) + lines::instance_text(styles, width, instance) + "\n"@
}

/// The line for an attempt that will be retried.
pub open spec fn attempt_failed_text(
    styles: Styles,
    width: usize,
    instance: TestInstance,
    status: ExecuteStatus,
) -> Seq<char> {
    lines::status_cell(
        styles.retry,
        lines::try_text(status.retry_data.attempt, runner::short_status_text(status.result)),
    ) + lines::duration_text(status.time_taken) + lines::instance_text(styles, width, instance)
        + "\n"@
}

/// The line for the delay before the next attempt.
pub open spec fn delay_text(
    styles: Styles,
    width: usize,
    instance: TestInstance,
    retry_data: RetryData,
    delay: TimeSpan,
) -> Seq<char> {
    lines::status_cell(
        styles.retry,
        "DELAY "@ + text::decimal((retry_data.attempt + 1) as nat) + "/"@ + text::decimal(
            retry_data.total_attempts as nat,
        ),
    ) + lines::duration_by_text(delay) + lines::instance_text(styles, width, instance) + "\n"@
}

/// What is written for an attempt that will be retried: its line, its output if it is shown
/// immediately, and a line for the delay if there is one.
pub open spec fn attempt_failed_output(
    styles: Styles,
    width: usize,
    instance: TestInstance,
    status: ExecuteStatus,
    delay: TimeSpan,
    failure_output: TestOutputDisplay,
) -> Seq<u8> {
    encode_utf8(attempt_failed_text(styles, width, instance, status)) + (
    if failure_output.shows_immediately() {
        lines::stdout_stderr(styles, width, instance, status, true)
    } else {
        seq![]
    }) + (if delay.zero() {
        seq![]
    } else {
        encode_utf8(delay_text(styles, width, instance, status.retry_data, delay))
    })
}

/// The line for a retry that started.
pub open spec fn retry_started_text(
    styles: Styles,
    width: usize,
    instance: TestInstance,
    retry_data: RetryData,
) -> Seq<char> {
    lines::status_cell(
        styles.retry,
        lines::ratio_text("RETRY "@, retry_data.attempt, retry_data.total_attempts),
    ) + lines::empty_duration() + lines::instance_text(styles, width, instance) + "\n"@
}

/// The display setting that holds for a test: the one for its outcome.
pub open spec fn display_for(
    statuses: ExecutionStatuses,
    success_output: TestOutputDisplay,
    failure_output: TestOutputDisplay,
) -> TestOutputDisplay {
    if statuses.last_status.result.success() {
        success_output
    } else {
        failure_output
    }
}

/// True if the output of a test is shown as soon as the test is done.
pub open spec fn shows_output_immediately(
    reporter: TestReporterImpl,
    statuses: ExecutionStatuses,
    display: TestOutputDisplay,
) -> bool {
    &&& reporter.status_level.rank() >= statuses.status_level.rank()
    &&& !levels::stopped_by_signal(reporter.cancel_status)
    &&& display.shows_immediately()
}

/// What is written for a test that finished: its line if its status is shown, and its output if
/// that is shown immediately.
pub open spec fn test_finished_output(
    reporter: TestReporterImpl,
    instance: TestInstance,
    statuses: ExecutionStatuses,
    display: TestOutputDisplay,
) -> Seq<u8> {
    if reporter.status_level.rank() >= statuses.status_level.rank() {
        encode_utf8(
            lines::status_line(reporter.styles, reporter.binary_id_width, instance, statuses),
        ) + if shows_output_immediately(reporter, statuses, display) {
            lines::stdout_stderr(
                reporter.styles,
                reporter.binary_id_width,
                instance,
                statuses.last_status,
                false,
            )
        } else {
            seq![]
        }
    } else {
        seq![]
    }
}

/// The number of setup scripts or of tests that are running.
///
/// At any time there are either setup scripts or tests running, but not both.
pub open spec fn running_text(
    styles: Styles,
    setup_scripts_running: usize,
    running: usize,
    verb: Seq<char>,
) -> Seq<char> {
    if setup_scripts_running > 0 {
        ": "@ + summary::styled_number(styles.count, setup_scripts_running) + " "@
            + summary::by_count(setup_scripts_running, "setup script"@, "setup scripts"@) + verb
    } else if running > 0 {
        ": "@ + summary::styled_number(styles.count, running) + " "@ + summary::by_count(
            running,
            "test"@,
            "tests"@,
        ) + verb
    } else {
        ""@
    }
}

/// The line for a run that is canceled, paused or continued.
pub open spec fn due_to_text(
    styles: Styles,
    action_style: Style,
    action: Seq<char>,
    cause_style: Style,
    cause: Seq<char>,
    setup_scripts_running: usize,
    running: usize,
    verb: Seq<char>,
) -> Seq<char> {
    lines::status_cell(action_style, action) + "due to "@ + cause_style.painted(cause)
        + running_text(styles, setup_scripts_running, running, verb) + "\n"@
}

/// The lines that sum a run up.
pub open spec fn run_finished_text(styles: Styles, elapsed: TimeSpan, stats: RunStats) -> Seq<char> {
    "------------\n"@ + lines::status_cell(
        if stats.has_failure {
            styles.fail
        } else {
            styles.pass
        },
        "Summary"@,
    ) + lines::duration_text(elapsed) + summary::styled_number(styles.count, stats.finished_count)
        + (if stats.finished_count != stats.initial_run_count {
        "/"@ + summary::styled_number(styles.count, stats.initial_run_count)
    } else {
        ""@
    }) + " "@ + (if stats.finished_count == 1 && stats.initial_run_count == 1 {
        "test"@
    } else {
        "tests"@
    }) + " run: "@ + summary::summary_text(stats, styles) + "\n"@
}

/// What is written at the end of the run for a test.
pub open spec fn entry_output(
    styles: Styles,
    width: usize,
    final_status_level: FinalStatusLevel,
    entry: Entry,
) -> Seq<u8> {
    match entry.1 {
        FinalOutput::Skipped(_) => encode_utf8(lines::skip_line(styles, width, entry.0)),
        FinalOutput::Executed { run_statuses, test_output_display } => {
            (if final_status_level.rank() >= run_statuses.final_status_level.rank()
                || test_output_display.shows_finally() {
                encode_utf8(lines::final_status_line(styles, width, entry.0, run_statuses))
            } else {
                seq![]
            }) + (if test_output_display.shows_finally() {
                lines::stdout_stderr(styles, width, entry.0, run_statuses.last_status, false)
            } else {
                seq![]
            })
        },
    }
}

/// What is written at the end of the run for a sequence of tests.
pub open spec fn entries_output(
    styles: Styles,
    width: usize,
    final_status_level: FinalStatusLevel,
    entries: Seq<Entry>,
) -> Seq<u8>
    decreases entries.len(),
{
    if entries.len() == 0 {
        seq![]
    } else {
        entries_output(styles, width, final_status_level, entries.drop_last()) + entry_output(
            styles,
            width,
            final_status_level,
            entries.last(),
        )
    }
}

/// True if the entry's output, where it is shown at the end of the run, can be shown.
pub open spec fn can_show_entry(entry: Entry) -> bool {
    match entry.1 {
        FinalOutput::Skipped(_) => true,
        FinalOutput::Executed { run_statuses, test_output_display } => {
            test_output_display.shows_finally() ==> lines::can_show_output(run_statuses.last_status)
        },
    }
}

/// Everything that is written for an event, given what is kept of the tests once the event has
/// been taken in.
pub open spec fn event_output(
    reporter: TestReporterImpl,
    kind: TestEventKind,
    entries: Seq<Entry>,
) -> Seq<u8> {
    let styles = reporter.styles;
    let width = reporter.binary_id_width;
    match kind {
        TestEventKind::RunStarted { test_list, .. } => {
            encode_utf8(run_started_text(styles, *test_list))
        },
        TestEventKind::SetupScriptStarted { index, total, script_id, command, args, .. } => {
            encode_utf8(
                script_started_text(
                    styles,
                    index,
                    total,
                    script_id,
                    shell::command_line(shell::command_words(command, args)),
                ),
            )
        },
        TestEventKind::SetupScriptSlow { script_id, command, args, elapsed, will_terminate } => {
            encode_utf8(
                script_slow_text(
                    styles,
                    reporter.status_level,
                    script_id,
                    shell::command_line(shell::command_words(command, args)),
                    elapsed,
                    will_terminate,
                ),
            )
        },
        TestEventKind::SetupScriptFinished {
            index,
            total,
            script_id,
            command,
            args,
            run_status,
            ..
        } => {
            script_finished_output(
                styles,
                index,
                total,
                script_id,
                shell::command_line(shell::command_words(command, args)),
                run_status,
            )
        },
        TestEventKind::TestStarted { test_instance, .. } => {
            if reporter.no_capture {
                encode_utf8(test_started_text(styles, width, test_instance))
            } else {
                seq![]
            }
        },
        TestEventKind::TestSlow { test_instance, retry_data, elapsed, will_terminate } => {
            if reporter.status_level.rank() >= slow_test_level(retry_data, will_terminate).rank() {
                encode_utf8(
                    test_slow_text(
                        styles,
                        width,
                        reporter.status_level,
                        test_instance,
                        retry_data,
                        elapsed,
                        will_terminate,
                    ),
                )
            } else {
                seq![]
            }
        },
        TestEventKind::TestAttemptFailedWillRetry {
            test_instance,
            run_status,
            delay_before_next_attempt,
            failure_output,
        } => {
            if reporter.status_level.rank() >= StatusLevel::Retry.rank() {
                attempt_failed_output(
                    styles,
                    width,
                    test_instance,
                    run_status,
                    delay_before_next_attempt,
                    failure_output,
                )
            } else {
                seq![]
            }
        },
        TestEventKind::TestRetryStarted { test_instance, retry_data } => {
            if reporter.status_level.rank() >= StatusLevel::Retry.rank() {
                encode_utf8(retry_started_text(styles, width, test_instance, retry_data))
            } else {
                seq![]
            }
        },
        TestEventKind::TestFinished {
            test_instance,
            success_output,
            failure_output,
            run_statuses,
            ..
        } => {
            test_finished_output(
                reporter,
                test_instance,
                run_statuses,
                display_for(run_statuses, success_output, failure_output),
            )
        },
        TestEventKind::TestSkipped { test_instance, .. } => {
            if reporter.status_level.rank() >= StatusLevel::Skip.rank() {
                encode_utf8(lines::skip_line(styles, width, test_instance))
            } else {
                seq![]
            }
        },
        TestEventKind::RunBeginCancel { setup_scripts_running, running, reason } => {
            encode_utf8(
                due_to_text(
                    styles,
                    styles.fail,
                    "Canceling"@,
                    styles.fail,
                    reason.text(),
                    setup_scripts_running,
                    running,
                    " still running"@,
                ),
            )
        },
        TestEventKind::RunPaused { setup_scripts_running, running } => {
            encode_utf8(
                due_to_text(
                    styles,
                    styles.pass,
                    "Pausing"@,
                    styles.count,
                    "signal"@,
                    setup_scripts_running,
                    running,
                    " running"@,
                ),
            )
        },
        TestEventKind::RunContinued { setup_scripts_running, running } => {
            encode_utf8(
                due_to_text(
                    styles,
                    styles.pass,
                    "Continuing"@,
                    styles.count,
                    "signal"@,
                    setup_scripts_running,
                    running,
                    " running"@,
                ),
            )
        },
        TestEventKind::RunFinished { elapsed, run_stats, .. } => {
            encode_utf8(run_finished_text(styles, elapsed, run_stats)) + if levels::stopped_by_signal(
                reporter.cancel_status,
            ) {
                seq![]
            } else {
                entries_output(styles, width, reporter.final_status_level, entries)
            }
        },
    }
}

/// The cancel status after an event.
pub open spec fn cancel_status_after(
    status: Option<CancelReason>,
    kind: TestEventKind,
) -> Option<CancelReason> {
    match kind {
        TestEventKind::RunBeginCancel { reason, .. } => levels::escalate(status, reason),
        _ => status,
    }
}

/// What an event leaves for the end of the run: a test that finished if its output is shown at the
/// end or if its status is, and a test that was skipped if that status is.
pub open spec fn kept_entries<'a>(
    final_status_level: FinalStatusLevel,
    kind: TestEventKind<'a>,
) -> Seq<Entry<'a>> {
    match kind {
        TestEventKind::TestFinished {
            test_instance,
            success_output,
            failure_output,
            run_statuses,
            ..
        } => {
            let display = display_for(run_statuses, success_output, failure_output);
            if display.shows_finally() || final_status_level.rank()
                >= run_statuses.final_status_level.rank() {
                seq![
                    (
                        test_instance,
                        FinalOutput::Executed { run_statuses, test_output_display: display },
                    ),
                ]
            } else {
                seq![]
            }
        },
        TestEventKind::TestSkipped { test_instance, reason } => {
            if final_status_level.rank() >= FinalStatusLevel::Skip.rank() {
                seq![(test_instance, FinalOutput::Skipped(reason))]
            } else {
                seq![]
            }
        },
        _ => seq![],
    }
}

/// True if the end of the run is shown in full: the run finished, and no signal had stopped it.
pub open spec fn shows_final_outputs(reporter: TestReporterImpl, kind: TestEventKind) -> bool {
    kind is RunFinished && !levels::stopped_by_signal(reporter.cancel_status)
}

/// How an event changes the state of a reporter.
pub open spec fn event_effect(
    before: TestReporterImpl,
    kind: TestEventKind,
    after: TestReporterImpl,
) -> bool {
    &&& after.status_level == before.status_level
    &&& after.final_status_level == before.final_status_level
    &&& after.no_capture == before.no_capture
    &&& after.binary_id_width == before.binary_id_width
    &&& after.styles == before.styles
    &&& after.cancel_status == cancel_status_after(before.cancel_status, kind)
    &&& if shows_final_outputs(before, kind) {
        final_output::is_stable_sort(before.final_outputs@, after.final_outputs@)
    } else {
        after.final_outputs@ == before.final_outputs@ + kept_entries(before.final_status_level, kind)
    }
}

/// True if a reporter can take in an event.
///
/// It cannot where a number would not fit: the number of a setup script or of an attempt plus one
/// in a machine word, and the number of an attempt in the header of its output. Nor can it where an
/// attempt that passed is said to be retried. Only what is going to be shown counts.
pub open spec fn accepts_event(reporter: TestReporterImpl, kind: TestEventKind) -> bool {
    match kind {
        TestEventKind::SetupScriptStarted { index, .. } => index < usize::MAX,
        TestEventKind::SetupScriptFinished { index, .. } => index < usize::MAX,
        TestEventKind::TestAttemptFailedWillRetry {
            run_status,
            delay_before_next_attempt,
            failure_output,
            ..
        } => reporter.status_level.rank() >= StatusLevel::Retry.rank() ==> {
            &&& !run_status.result.success()
            &&& failure_output.shows_immediately() ==> lines::can_show_output(run_status)
            &&& delay_before_next_attempt.zero() || run_status.retry_data.attempt < usize::MAX
        },
        TestEventKind::TestFinished { success_output, failure_output, run_statuses, .. } => {
            shows_output_immediately(
                reporter,
                run_statuses,
                display_for(run_statuses, success_output, failure_output),
            ) ==> lines::can_show_output(run_statuses.last_status)
        },
        TestEventKind::RunFinished { .. } => !levels::stopped_by_signal(reporter.cancel_status)
            ==> forall|i: int|
            0 <= i < reporter.final_outputs@.len() ==> can_show_entry(
                #[trigger] reporter.final_outputs@[i],
            ),
        _ => true,
    }
}

impl<'a> TestReporterImpl<'a> {
    /// Writes the line for the start of a run.
    fn write_run_started(&self, test_list: &TestList, out: &mut String)
        ensures
            final(out)@ == old(out)@ + run_started_text(self.styles, *test_list),
    {
        let mut s = lines::status_cell_string(self.styles.pass, "Starting");
        let run_count = summary::styled_number_string(self.styles.count, test_list.run_count);
        s.append(run_count.as_str());
        s.append(" ");
        s.append(summary::tests_str(test_list.run_count));
        s.append(" across ");
        let binary_count = summary::styled_number_string(self.styles.count, test_list.binary_count);
        s.append(binary_count.as_str());
        s.append(" ");
        s.append(summary::binaries_str(test_list.binary_count));
        if test_list.skip_count > 0 {
            let skip_count = summary::styled_number_string(self.styles.count, test_list.skip_count);
            let mut skipped = " (".to_owned();
            skipped.append(skip_count.as_str());
            skipped.append(" skipped)");
            s.append(skipped.as_str());
        } else {
            s.append("");
        }
        s.append("\n");
        out.append(s.as_str());
    }

    /// Writes the line for a setup script that started, given its command line.
    pub fn write_script_started(
        &self,
        index: usize,
        total: usize,
        script_id: &ScriptId,
        full_command: &str,
        out: &mut String,
    )
        requires
            index < usize::MAX,
        ensures
            final(out)@ == old(out)@ + script_started_text(
                self.styles,
                index,
                total,
                *script_id,
                full_command@,
            ),
    {
        let mut s = lines::status_cell_string(self.styles.pass, "SETUP");
        let number = lines::script_number_string(index, total);
        s.append(number.as_str());
        self.write_script_command(script_id, full_command, &mut s);
        s.append("\n");
        out.append(s.as_str());
    }

    /// Writes the line for a setup script that is slow, given its command line.
    pub fn write_script_slow(
        &self,
        script_id: &ScriptId,
        full_command: &str,
        elapsed: &TimeSpan,
        will_terminate: bool,
        out: &mut String,
    )
        ensures
            final(out)@ == old(out)@ + script_slow_text(
                self.styles,
                self.status_level,
                *script_id,
                full_command@,
                *elapsed,
                will_terminate,
            ),
    {
        let mut s = if !will_terminate && self.status_level.shows(StatusLevel::Slow) {
            lines::status_cell_string(self.styles.skip, "SETUP SLOW")
        } else if will_terminate {
            lines::status_cell_string(self.styles.fail, "TERMINATING")
        } else {
            "".to_owned()
        };
        self.write_slow_duration(elapsed, &mut s);
        self.write_script_command(script_id, full_command, &mut s);
        s.append("\n");
        out.append(s.as_str());
    }

    /// Writes the line for a setup script that finished and, if it failed, its output, given its
    /// command line.
    pub fn write_script_finished(
        &self,
        index: usize,
        total: usize,
        script_id: &ScriptId,
        full_command: &str,
        run_status: &SetupScriptExecuteStatus,
        writer: &mut Vec<u8>,
    )
        requires
            index < usize::MAX,
        ensures
            final(writer)@ == old(writer)@ + script_finished_output(
                self.styles,
                index,
                total,
                *script_id,
                full_command@,
                *run_status,
            ),
    {
        let mut line = String::new();
        self.write_script_status_line(
            script_id,
            index,
            total,
            full_command,
            &run_status.result,
            &mut line,
        );
        let ghost expected = lines::script_status_line(
            self.styles,
            *script_id,
            index,
            total,
            full_command@,
            run_status.result,
        );
        assert(line@ =~= expected);
        text::push_text(writer, line.as_str());
        // Always display failing setup script output if it exists.
        if !run_status.result.is_success() {
            self.write_script_stdout_stderr(script_id, full_command, run_status, writer);
        }
        assert(writer@ =~= old(writer)@ + script_finished_output(
            self.styles,
            index,
            total,
            *script_id,
            full_command@,
            *run_status,
        ));
    }

    /// Writes the line for a test that started.
    fn write_test_started(&self, test_instance: TestInstance<'a>, out: &mut String)
        ensures
            final(out)@ == old(out)@ + test_started_text(
                self.styles,
                self.binary_id_width,
                test_instance,
            ),
    {
        let padded = text::right_aligned("START", 12);
        let mut s = self.styles.pass.paint(padded.as_str());
        // The spacing is to align test instances.
        s.append("             ");
        self.write_instance(test_instance, &mut s);
        s.append("\n");
        out.append(s.as_str());
    }

    /// Writes the line for a test that is slow.
    fn write_test_slow(
        &self,
        test_instance: TestInstance<'a>,
        retry_data: RetryData,
        elapsed: &TimeSpan,
        will_terminate: bool,
        out: &mut String,
    )
        ensures
            final(out)@ == old(out)@ + test_slow_text(
                self.styles,
                self.binary_id_width,
                self.status_level,
                test_instance,
                retry_data,
                *elapsed,
                will_terminate,
            ),
    {
        let mut s = if will_terminate {
            let required_status_level = required_slow_level(retry_data, will_terminate);
            let style = if retry_data.is_last_attempt() {
                self.styles.fail
            } else {
                self.styles.retry
            };
            if retry_data.total_attempts > 1 && !required_status_level.shows(self.status_level) {
                let status = lines::try_string(retry_data.attempt, "TRMNTG");
                lines::status_cell_string(style, status.as_str())
            } else {
                lines::status_cell_string(style, "TERMINATING")
            }
        } else if retry_data.total_attempts > 1 {
            let status = lines::try_string(retry_data.attempt, "SLOW");
            lines::status_cell_string(self.styles.skip, status.as_str())
        } else {
            lines::status_cell_string(self.styles.skip, "SLOW")
        };
        self.write_slow_duration(elapsed, &mut s);
        self.write_instance(test_instance, &mut s);
        s.append("\n");
        out.append(s.as_str());
    }

    /// Writes an attempt that will be retried: its line, its output if it is shown immediately, and
    /// a line for the delay if there is one.
    fn write_attempt_failed(
        &self,
        test_instance: TestInstance<'a>,
        run_status: &ExecuteStatus,
        delay: &TimeSpan,
        failure_output: TestOutputDisplay,
        writer: &mut Vec<u8>,
    )
        requires
            failure_output.shows_immediately() ==> lines::can_show_output(*run_status),
            delay.zero() || run_status.retry_data.attempt < usize::MAX,
        ensures
            final(writer)@ == old(writer)@ + attempt_failed_output(
                self.styles,
                self.binary_id_width,
                test_instance,
                *run_status,
                *delay,
                failure_output,
            ),
    {
        let ghost styles = self.styles;
        let ghost width = self.binary_id_width;
        let outcome = runner::short_status_str(&run_status.result);
        let status = lines::try_string(run_status.retry_data.attempt, outcome.as_str());
        let mut s = lines::status_cell_string(self.styles.retry, status.as_str());
        // Next, print the time taken.
        self.write_duration(&run_status.time_taken, &mut s);
        // Print the name of the test.
        self.write_instance(test_instance, &mut s);
        s.append("\n");
        text::push_text(writer, s.as_str());
        let ghost line_part = encode_utf8(
            attempt_failed_text(styles, width, test_instance, *run_status),
        );
        let ghost written = writer@;
        assert(written == old(writer)@ + line_part);
        if failure_output.is_immediate() {
            self.write_stdout_stderr(&test_instance, run_status, true, writer);
        }
        let ghost output_part = if failure_output.shows_immediately() {
            lines::stdout_stderr(styles, width, test_instance, *run_status, true)
        } else {
            seq![]
        };
        assert(writer@ =~= old(writer)@ + (line_part + output_part));
        if !delay.is_zero() {
            let status = lines::ratio_string(
                "DELAY ",
                run_status.retry_data.attempt + 1,
                run_status.retry_data.total_attempts,
            );
            let mut s = lines::status_cell_string(self.styles.retry, status.as_str());
            self.write_duration_by(delay, &mut s);
            // Print the name of the test.
            self.write_instance(test_instance, &mut s);
            s.append("\n");
            text::push_text(writer, s.as_str());
        }
        assert(writer@ =~= old(writer)@ + attempt_failed_output(
            styles,
            width,
            test_instance,
            *run_status,
            *delay,
            failure_output,
        ));
    }

    /// Writes the line for a retry that started.
    fn write_retry_started(
        &self,
        test_instance: TestInstance<'a>,
        retry_data: RetryData,
        out: &mut String,
    )
        ensures
            final(out)@ == old(out)@ + retry_started_text(
                self.styles,
                self.binary_id_width,
                test_instance,
                retry_data,
            ),
    {
        let status = lines::ratio_string(
            "RETRY ",
            retry_data.attempt,
            retry_data.total_attempts,
        );
        let mut s = lines::status_cell_string(self.styles.retry, status.as_str());
        // Add spacing to align test instances.
        s.append("[         ] ");
        // Print the name of the test.
        self.write_instance(test_instance, &mut s);
        s.append("\n");
        out.append(s.as_str());
    }

    /// Writes a test that finished: its line if its status is shown, and its output if that is
    /// shown immediately.
    fn write_test_finished(
        &self,
        test_instance: TestInstance<'a>,
        run_statuses: &ExecutionStatuses,
        test_output_display: TestOutputDisplay,
        writer: &mut Vec<u8>,
    )
        requires
            shows_output_immediately(*self, *run_statuses, test_output_display)
                ==> lines::can_show_output(run_statuses.last_status),
        ensures
            final(writer)@ == old(writer)@ + test_finished_output(
                *self,
                test_instance,
                *run_statuses,
                test_output_display,
            ),
    {
        if self.status_level.shows(run_statuses.status_level) {
            let mut line = String::new();
            self.write_status_line(test_instance, run_statuses, &mut line);
            assert(line@ =~= lines::status_line(
                self.styles,
                self.binary_id_width,
                test_instance,
                *run_statuses,
            ));
            text::push_text(writer, line.as_str());
            // If the test failed to execute, print its output and error status.
            // (don't print out test failures after Ctrl-C)
            if !levels::is_stopped_by_signal(self.cancel_status)
                && test_output_display.is_immediate() {
                self.write_stdout_stderr(&test_instance, &run_statuses.last_status, false, writer);
            }
        }
        assert(writer@ =~= old(writer)@ + test_finished_output(
            *self,
            test_instance,
            *run_statuses,
            test_output_display,
        ));
    }

    /// Writes the line for a run that is canceled, paused or continued.
    fn write_due_to(
        &self,
        action_style: Style,
        action: &str,
        cause_style: Style,
        cause: &str,
        setup_scripts_running: usize,
        running: usize,
        verb: &str,
        out: &mut String,
    )
        ensures
            final(out)@ == old(out)@ + due_to_text(
                self.styles,
                action_style,
                action@,
                cause_style,
                cause@,
                setup_scripts_running,
                running,
                verb@,
            ),
    {
        let mut s = lines::status_cell_string(action_style, action);
        s.append("due to ");
        let cause = cause_style.paint(cause);
        s.append(cause.as_str());
        // At the moment, we can have either setup scripts or tests running, but not both.
        if setup_scripts_running > 0 {
            let mut still = ": ".to_owned();
            let count = summary::styled_number_string(self.styles.count, setup_scripts_running);
            still.append(count.as_str());
            still.append(" ");
            still.append(summary::setup_scripts_str(setup_scripts_running));
            still.append(verb);
            s.append(still.as_str());
        } else if running > 0 {
            let mut still = ": ".to_owned();
            let count = summary::styled_number_string(self.styles.count, running);
            still.append(count.as_str());
            still.append(" ");
            still.append(summary::tests_str(running));
            still.append(verb);
            s.append(still.as_str());
        } else {
            s.append("");
        }
        s.append("\n");
        out.append(s.as_str());
    }

    /// Writes the lines that sum a run up.
    fn write_run_finished(&self, elapsed: &TimeSpan, run_stats: &RunStats, out: &mut String)
        ensures
            final(out)@ == old(out)@ + run_finished_text(self.styles, *elapsed, *run_stats),
    {
        let summary_style = if run_stats.has_failure {
            self.styles.fail
        } else {
            self.styles.pass
        };
        let mut s = "------------\n".to_owned();
        let cell = lines::status_cell_string(summary_style, "Summary");
        s.append(cell.as_str());
        // Next, print the total time taken.
        self.write_duration(elapsed, &mut s);
        let finished = summary::styled_number_string(self.styles.count, run_stats.finished_count);
        s.append(finished.as_str());
        if run_stats.finished_count != run_stats.initial_run_count {
            let initial = summary::styled_number_string(
                self.styles.count,
                run_stats.initial_run_count,
            );
            let mut out_of = "/".to_owned();
            out_of.append(initial.as_str());
            s.append(out_of.as_str());
        } else {
            s.append("");
        }
        s.append(" ");
        if run_stats.finished_count == 1 && run_stats.initial_run_count == 1 {
            s.append("test");
        } else {
            s.append("tests");
        }
        s.append(" run: ");
        summary::write_summary_str(run_stats, &self.styles, &mut s);
        s.append("\n");
        out.append(s.as_str());
    }

    /// Writes what is shown at the end of the run for a test.
    pub fn write_entry(&self, entry: &Entry<'a>, writer: &mut Vec<u8>)
        requires
            can_show_entry(*entry),
        ensures
            final(writer)@ == old(writer)@ + entry_output(
                self.styles,
                self.binary_id_width,
                self.final_status_level,
                *entry,
            ),
    {
        let ghost styles = self.styles;
        let ghost width = self.binary_id_width;
        let mut line = String::new();
        match &entry.1 {
            FinalOutput::Skipped(_) => {
                self.write_skip_line(entry.0, &mut line);
                assert(line@ =~= lines::skip_line(styles, width, entry.0));
                text::push_text(writer, line.as_str());
            },
            FinalOutput::Executed { run_statuses, test_output_display } => {
                // Print out the final status line so that status lines are shown for tests that
                // e.g. failed due to signals.
                if self.final_status_level.shows(run_statuses.final_status_level)
                    || test_output_display.is_final() {
                    self.write_final_status_line(entry.0, run_statuses, &mut line);
                    assert(line@ =~= lines::final_status_line(
                        styles,
                        width,
                        entry.0,
                        *run_statuses,
                    ));
                    text::push_text(writer, line.as_str());
                }
                if test_output_display.is_final() {
                    self.write_stdout_stderr(&entry.0, &run_statuses.last_status, false, writer);
                }
            },
        }
        assert(writer@ =~= old(writer)@ + entry_output(
            styles,
            width,
            self.final_status_level,
            *entry,
        ));
    }

    /// Writes what is shown at the end of the run for all tests that something is kept of.
    fn write_entries(&self, writer: &mut Vec<u8>)
        requires
            forall|i: int|
                0 <= i < self.final_outputs@.len() ==> can_show_entry(
                    #[trigger] self.final_outputs@[i],
                ),
        ensures
            final(writer)@ == old(writer)@ + entries_output(
                self.styles,
                self.binary_id_width,
                self.final_status_level,
                self.final_outputs@,
            ),
    {
        let ghost entries = self.final_outputs@;
        let ghost before = writer@;
        let mut i: usize = 0;
        assert(entries.take(0) =~= Seq::<Entry<'a>>::empty());
        assert(writer@ =~= before + Seq::<u8>::empty());
        while i < self.final_outputs.len()
            invariant
                i <= entries.len(),
                entries == self.final_outputs@,
                forall|j: int|
                    0 <= j < entries.len() ==> can_show_entry(#[trigger] entries[j]),
                writer@ == before + entries_output(
                    self.styles,
                    self.binary_id_width,
                    self.final_status_level,
                    entries.take(i as int),
                ),
            decreases entries.len() - i,
        {
            self.write_entry(&self.final_outputs[i], writer);
            proof {
                let longer = entries.take(i + 1);
                assert(longer.drop_last() =~= entries.take(i as int));
                assert(longer.last() == entries[i as int]);
                assert(writer@ =~= before + entries_output(
                    self.styles,
                    self.binary_id_width,
                    self.final_status_level,
                    longer,
                ));
            }
            i = i + 1;
        }
        assert(entries.take(i as int) =~= entries);
    }

    /// Sorts what is kept of the tests, for a friendlier experience.
    fn sort_final_outputs(&mut self)
        ensures
            *final(self) == (TestReporterImpl {
                final_outputs: final(self).final_outputs,
                ..*old(self)
            }),
            final_output::is_stable_sort(old(self).final_outputs@, final(self).final_outputs@),
    {
        let mut entries: Vec<Entry<'a>> = Vec::new();
        std::mem::swap(&mut entries, &mut self.final_outputs);
        self.final_outputs = final_output::sort_entries(entries);
    }

    /// Returns true if this reporter can take in the event.
    pub fn accepts(&self, event: &TestEvent<'a>) -> (r: bool)
        ensures
            r == accepts_event(*self, event.kind),
    {
        match &event.kind {
            TestEventKind::SetupScriptStarted { index, .. } => *index < usize::MAX,
            TestEventKind::SetupScriptFinished { index, .. } => *index < usize::MAX,
            TestEventKind::TestAttemptFailedWillRetry {
                run_status,
                delay_before_next_attempt,
                failure_output,
                ..
            } => {
                !self.status_level.shows(StatusLevel::Retry) || (!run_status.result.is_success() && (
                !failure_output.is_immediate() || lines::output_can_be_shown(run_status)) && (
                delay_before_next_attempt.is_zero() || run_status.retry_data.attempt < usize::MAX))
            },
            TestEventKind::TestFinished { success_output, failure_output, run_statuses, .. } => {
                let test_output_display = if run_statuses.last_status.result.is_success() {
                    success_output
                } else {
                    failure_output
                };
                !(self.status_level.shows(run_statuses.status_level)
                    && !levels::is_stopped_by_signal(self.cancel_status)
                    && test_output_display.is_immediate()) || lines::output_can_be_shown(
                    &run_statuses.last_status,
                )
            },
            TestEventKind::RunFinished { .. } => {
                levels::is_stopped_by_signal(self.cancel_status) || self.can_show_entries()
            },
            _ => true,
        }
    }

    /// Returns true if all that is kept for the end of the run can be shown.
    fn can_show_entries(&self) -> (r: bool)
        ensures
            r == (forall|i: int|
                0 <= i < self.final_outputs@.len() ==> can_show_entry(
                    #[trigger] self.final_outputs@[i],
                )),
    {
        let mut i: usize = 0;
        while i < self.final_outputs.len()
            invariant
                i <= self.final_outputs@.len(),
                forall|j: int|
                    0 <= j < i ==> can_show_entry(#[trigger] self.final_outputs@[j]),
            decreases self.final_outputs@.len() - i,
        {
            let showable = match &self.final_outputs[i].1 {
                FinalOutput::Skipped(_) => true,
                FinalOutput::Executed { run_statuses, test_output_display } => {
                    !test_output_display.is_final() || lines::output_can_be_shown(
                        &run_statuses.last_status,
                    )
                },
            };
            if !showable {
                assert(!can_show_entry(self.final_outputs@[i as int]));
                return false;
            }
            i = i + 1;
        }
        true
    }

    /// Takes in an event: writes what is shown for it, and remembers what is shown later.
    pub fn write_event_impl(&mut self, event: &TestEvent<'a>, writer: &mut Vec<u8>)
        requires
            accepts_event(*old(self), event.kind),
        ensures
            event_effect(*old(self), event.kind, *final(self)),
            final(writer)@ == old(writer)@ + event_output(
                *old(self),
                event.kind,
                final(self).final_outputs@,
            ),
    {
        let ghost nothing = Seq::<u8>::empty();
        let ghost before = *self;
        assert(before.final_outputs@ + Seq::<Entry<'a>>::empty() =~= before.final_outputs@);
        assert(old(writer)@ + nothing =~= old(writer)@);
        let mut line = String::new();
        match &event.kind {
            TestEventKind::RunStarted { test_list, .. } => {
                self.write_run_started(test_list, &mut line);
                assert(line@ =~= run_started_text(self.styles, **test_list));
                text::push_text(writer, line.as_str());
            },
            TestEventKind::SetupScriptStarted { index, total, script_id, command, args, .. } => {
                let full_command = shell::full_command(command, args);
                self.write_script_started(
                    *index,
                    *total,
                    script_id,
                    full_command.as_str(),
                    &mut line,
                );
                assert(line@ =~= script_started_text(
                    self.styles,
                    *index,
                    *total,
                    *script_id,
                    full_command@,
                ));
                text::push_text(writer, line.as_str());
            },
            TestEventKind::SetupScriptSlow { script_id, command, args, elapsed, will_terminate } => {
                let full_command = shell::full_command(command, args);
                self.write_script_slow(
                    script_id,
                    full_command.as_str(),
                    elapsed,
                    *will_terminate,
                    &mut line,
                );
                assert(line@ =~= script_slow_text(
                    self.styles,
                    self.status_level,
                    *script_id,
                    full_command@,
                    *elapsed,
                    *will_terminate,
                ));
                text::push_text(writer, line.as_str());
            },
            TestEventKind::SetupScriptFinished {
                index,
                total,
                script_id,
                command,
                args,
                run_status,
                ..
            } => {
                let full_command = shell::full_command(command, args);
                self.write_script_finished(
                    *index,
                    *total,
                    script_id,
                    full_command.as_str(),
                    run_status,
                    writer,
                );
            },
            TestEventKind::TestStarted { test_instance, .. } => {
                // In no-capture mode, print out a test start event.
                if self.no_capture {
                    self.write_test_started(*test_instance, &mut line);
                    assert(line@ =~= test_started_text(
                        self.styles,
                        self.binary_id_width,
                        *test_instance,
                    ));
                    text::push_text(writer, line.as_str());
                }
            },
            TestEventKind::TestSlow { test_instance, retry_data, elapsed, will_terminate } => {
                if self.status_level.shows(required_slow_level(*retry_data, *will_terminate)) {
                    self.write_test_slow(
                        *test_instance,
                        *retry_data,
                        elapsed,
                        *will_terminate,
                        &mut line,
                    );
                    assert(line@ =~= test_slow_text(
                        self.styles,
                        self.binary_id_width,
                        self.status_level,
                        *test_instance,
                        *retry_data,
                        *elapsed,
                        *will_terminate,
                    ));
                    text::push_text(writer, line.as_str());
                }
            },
            TestEventKind::TestAttemptFailedWillRetry {
                test_instance,
                run_status,
                delay_before_next_attempt,
                failure_output,
            } => {
                // The final output doesn't show retries, so don't store this result in
                // final_outputs.
                if self.status_level.shows(StatusLevel::Retry) {
                    self.write_attempt_failed(
                        *test_instance,
                        run_status,
                        delay_before_next_attempt,
                        *failure_output,
                        writer,
                    );
                }
            },
            TestEventKind::TestRetryStarted { test_instance, retry_data } => {
                if self.status_level.shows(StatusLevel::Retry) {
                    self.write_retry_started(*test_instance, *retry_data, &mut line);
                    assert(line@ =~= retry_started_text(
                        self.styles,
                        self.binary_id_width,
                        *test_instance,
                        *retry_data,
                    ));
                    text::push_text(writer, line.as_str());
                }
            },
            TestEventKind::TestFinished {
                test_instance,
                success_output,
                failure_output,
                run_statuses,
                ..
            } => {
                let test_output_display = if run_statuses.last_status.result.is_success() {
                    *success_output
                } else {
                    *failure_output
                };
                self.write_test_finished(
                    *test_instance,
                    run_statuses,
                    test_output_display,
                    writer,
                );
                // Store the output in final_outputs if test output display is requested, or if we
                // have to print a one-line summary at the end.
                if test_output_display.is_final() || self.final_status_level.shows(
                    run_statuses.final_status_level,
                ) {
                    let run_statuses = run_statuses.clone();
                    self.final_outputs.push(
                        (*test_instance, FinalOutput::Executed { run_statuses, test_output_display }),
                    );
                }
                assert(self.final_outputs@ =~= before.final_outputs@ + kept_entries(
                    before.final_status_level,
                    event.kind,
                ));
            },
            TestEventKind::TestSkipped { test_instance, reason } => {
                if self.status_level.shows(StatusLevel::Skip) {
                    self.write_skip_line(*test_instance, &mut line);
                    assert(line@ =~= lines::skip_line(
                        self.styles,
                        self.binary_id_width,
                        *test_instance,
                    ));
                    text::push_text(writer, line.as_str());
                }
                if self.final_status_level.shows(FinalStatusLevel::Skip) {
                    self.final_outputs.push((*test_instance, FinalOutput::Skipped(*reason)));
                }
                assert(self.final_outputs@ =~= before.final_outputs@ + kept_entries(
                    before.final_status_level,
                    event.kind,
                ));
            },
            TestEventKind::RunBeginCancel { setup_scripts_running, running, reason } => {
                self.cancel_status = levels::escalated(self.cancel_status, *reason);
                self.write_due_to(
                    self.styles.fail,
                    "Canceling",
                    self.styles.fail,
                    reason.as_str(),
                    *setup_scripts_running,
                    *running,
                    " still running",
                    &mut line,
                );
                assert(line@ =~= due_to_text(
                    self.styles,
                    self.styles.fail,
                    "Canceling"@,
                    self.styles.fail,
                    reason.text(),
                    *setup_scripts_running,
                    *running,
                    " still running"@,
                ));
                text::push_text(writer, line.as_str());
            },
            TestEventKind::RunPaused { setup_scripts_running, running } => {
                self.write_due_to(
                    self.styles.pass,
                    "Pausing",
                    self.styles.count,
                    "signal",
                    *setup_scripts_running,
                    *running,
                    " running",
                    &mut line,
                );
                assert(line@ =~= due_to_text(
                    self.styles,
                    self.styles.pass,
                    "Pausing"@,
                    self.styles.count,
                    "signal"@,
                    *setup_scripts_running,
                    *running,
                    " running"@,
                ));
                text::push_text(writer, line.as_str());
            },
            TestEventKind::RunContinued { setup_scripts_running, running } => {
                self.write_due_to(
                    self.styles.pass,
                    "Continuing",
                    self.styles.count,
                    "signal",
                    *setup_scripts_running,
                    *running,
                    " running",
                    &mut line,
                );
                assert(line@ =~= due_to_text(
                    self.styles,
                    self.styles.pass,
                    "Continuing"@,
                    self.styles.count,
                    "signal"@,
                    *setup_scripts_running,
                    *running,
                    " running"@,
                ));
                text::push_text(writer, line.as_str());
            },
            TestEventKind::RunFinished { elapsed, run_stats, .. } => {
                self.write_run_finished(elapsed, run_stats, &mut line);
                let ghost line_text = run_finished_text(self.styles, *elapsed, *run_stats);
                assert(line@ =~= line_text);
                text::push_text(writer, line.as_str());
                // Don't print out final outputs if canceled due to Ctrl-C.
                if !levels::is_stopped_by_signal(self.cancel_status) {
                    self.sort_final_outputs();
                    proof {
                        assert forall|i: int| 0 <= i < self.final_outputs@.len() implies can_show_entry(
                            #[trigger] self.final_outputs@[i],
                        ) by {
                            let after = self.final_outputs@;
                            final_output::lemma_stable_sort_members(
                                before.final_outputs@,
                                after,
                                i,
                            );
                            let m = choose|m: int|
                                0 <= m < before.final_outputs@.len() && before.final_outputs@[m]
                                    == after[i];
                            assert(can_show_entry(before.final_outputs@[m]));
                        }
                    }
                    self.write_entries(writer);
                }
                assert(writer@ =~= old(writer)@ + event_output(
                    before,
                    event.kind,
                    self.final_outputs@,
                ));
            },
        }
    }
}

} // verus!
