//! The lines of a report.

use crate::ansi;
use crate::event::ScriptId;
use crate::final_output::Entry;
use crate::levels::{CancelReason, FinalStatusLevel, StatusLevel};
use crate::list;
use crate::list::TestInstance;
use crate::runner;
use crate::runner::{
    AbortStatus, ExecuteStatus, ExecutionDescription, ExecutionResult, ExecutionStatuses, RetryData,
    SetupScriptExecuteStatus, TimeSpan,
};
use crate::shell;
use crate::style::{Style, Styles};
use crate::text;
use vstd::prelude::*;
use vstd::string::*;
use vstd::utf8::*;

verus! {

/// The state of a reporter.
pub struct TestReporterImpl<'a> {
    /// The statuses to output.
    pub status_level: StatusLevel,
    /// The statuses to output at the end of the run.
    pub final_status_level: FinalStatusLevel,
    /// Whether tests write to the terminal themselves.
    pub no_capture: bool,
    /// The width of the column for binary IDs.
    pub binary_id_width: usize,
    /// The styles.
    pub styles: Styles,
    /// Why the run is being canceled, if it is.
    pub cancel_status: Option<CancelReason>,
    /// What is kept for the end of the run.
    pub final_outputs: Vec<Entry<'a>>,
}

/// A status in the first column, with the space after it.
pub open spec fn status_cell(style: Style, status: Seq<char>) -> Seq<char> {
    style.painted(text::pad_left(status, 12)) + " "@
}

/// Renders a status in the first column, with the space after it.
pub fn status_cell_string(style: Style, status: &str) -> (r: String)
    ensures
        r@ == status_cell(style, status@),
{
    let padded = text::right_aligned(status, 12);
    let mut s = style.paint(padded.as_str());
    s.append(" ");
    s
}

/// A time span in the second column.
pub open spec fn duration_text(duration: TimeSpan) -> Seq<char> {
    "["@ + text::pad_left(duration.seconds_text@, 8) + "s] "@
}

/// A delay in the second column.
pub open spec fn duration_by_text(duration: TimeSpan) -> Seq<char> {
    "by "@ + text::pad_left(duration.seconds_text@, 7) + "s "@
}

/// A time span that has passed so far, in the second column.
pub open spec fn slow_duration_text(duration: TimeSpan) -> Seq<char> {
    "[>"@ + text::pad_left(duration.seconds_text@, 7) + "s] "@
}

/// A second column with nothing in it.
pub open spec fn empty_duration() -> Seq<char> {
    "[         ] "@
}

/// The number of a setup script among all of them, in the second column.
pub open spec fn script_number_text(index: usize, total: usize) -> Seq<char> {
    "["@ + text::pad_left(
        text::decimal((index + 1) as nat) + "/"@ + text::decimal(total as nat),
        9,
    ) + "] "@
}

/// A test: its binary ID and its name.
pub open spec fn instance_text(styles: Styles, width: usize, instance: TestInstance) -> Seq<char> {
    styles.list_styles.binary_id.painted(
        text::pad_left(instance.suite_info.binary_id@, width as nat),
    ) + " "@ + list::styled_test_name(instance.name@, styles.list_styles)
}

/// A setup script: its ID and its command line.
pub open spec fn script_text(styles: Styles, script_id: ScriptId, full_command: Seq<char>) -> Seq<
    char,
> {
    styles.script_id.painted(script_id.0@) + ": "@ + full_command
}

/// The line for a skipped test.
pub open spec fn skip_line(styles: Styles, width: usize, instance: TestInstance) -> Seq<char> {
    status_cell(styles.skip, "SKIP"@) + empty_duration() + instance_text(styles, width, instance)
        + "\n"@
}

/// The status of a setup script that finished.
pub open spec fn script_status_cell(styles: Styles, result: ExecutionResult) -> Seq<char> {
    match result {
        ExecutionResult::Pass => status_cell(styles.pass, "SETUP PASS"@),
        ExecutionResult::Leak => status_cell(styles.skip, "SETUP LEAK"@),
        _ => status_cell(styles.fail, "SETUP "@ + runner::short_status_text(result)),
    }
}

/// The line for a setup script that finished.
pub open spec fn script_status_line(
    styles: Styles,
    script_id: ScriptId,
    index: usize,
    total: usize,
    full_command: Seq<char>,
    result: ExecutionResult,
) -> Seq<char> {
    script_status_cell(styles, result) + script_number_text(index, total) + script_text(
        styles,
        script_id,
        full_command,
    ) + "\n"@
}

/// `TRY`, the number of an attempt, and how it came out.
pub open spec fn try_text(attempt: usize, outcome: Seq<char>) -> Seq<char> {
    "TRY "@ + text::decimal(attempt as nat) + " "@ + outcome
}

/// Two numbers with a slash between them.
pub open spec fn ratio_text(label: Seq<char>, n: usize, total: usize) -> Seq<char> {
    label + text::decimal(n as nat) + "/"@ + text::decimal(total as nat)
}

/// The status of a test that failed.
pub open spec fn failure_cell(styles: Styles, status: ExecuteStatus) -> Seq<char> {
    if status.retry_data.attempt == 1 {
        status_cell(styles.fail, runner::status_text(status.result))
    } else {
        status_cell(
            styles.fail,
            try_text(status.retry_data.attempt, runner::short_status_text(status.result)),
        )
    }
}

/// The status of a test that finished.
pub open spec fn outcome_cell(styles: Styles, statuses: ExecutionStatuses) -> Seq<char> {
    let last = statuses.last_status;
    match statuses.description {
        ExecutionDescription::Success => if last.result is Leak {
            status_cell(styles.skip, "LEAK"@)
        } else {
            status_cell(styles.pass, "PASS"@)
        },
        ExecutionDescription::Flaky => status_cell(
            styles.skip,
            try_text(last.retry_data.attempt, "PASS"@),
        ),
        ExecutionDescription::Failure => failure_cell(styles, last),
    }
}

/// The status of a test, as it is shown at the end of the run.
pub open spec fn final_outcome_cell(styles: Styles, statuses: ExecutionStatuses) -> Seq<char> {
    let last = statuses.last_status;
    match statuses.description {
        ExecutionDescription::Success => if last.is_slow && last.result is Leak {
            status_cell(styles.skip, "SLOW + LEAK"@)
        } else if last.is_slow {
            status_cell(styles.skip, "SLOW"@)
        } else if last.result is Leak {
            status_cell(styles.skip, "LEAK"@)
        } else {
            status_cell(styles.pass, "PASS"@)
        },
        ExecutionDescription::Flaky => status_cell(
            styles.skip,
            ratio_text("FLAKY "@, last.retry_data.attempt, last.retry_data.total_attempts),
        ),
        ExecutionDescription::Failure => failure_cell(styles, last),
    }
}

/// The line with the system's message on an abnormal exit on Windows.
pub open spec fn windows_message_line(styles: Styles, message: Seq<char>) -> Seq<char> {
    status_cell(styles.fail, "Message"@) + empty_duration() + "code "@ + message + "\n"@
}

/// The line with the system's message, if there is one.
pub open spec fn abort_message_line(styles: Styles, result: ExecutionResult) -> Seq<char> {
    match result {
        ExecutionResult::Fail { abort_status: Some(AbortStatus::WindowsNtStatus { message }), .. } => {
            windows_message_line(styles, message@)
        },
        _ => ""@,
    }
}

/// The line for a test that finished, with the given status in the first column.
pub open spec fn test_line(
    styles: Styles,
    width: usize,
    cell: Seq<char>,
    instance: TestInstance,
    status: ExecuteStatus,
) -> Seq<char> {
    cell + duration_text(status.time_taken) + instance_text(styles, width, instance) + "\n"@
        + abort_message_line(styles, status.result)
}

/// The line for a test that finished.
pub open spec fn status_line(
    styles: Styles,
    width: usize,
    instance: TestInstance,
    statuses: ExecutionStatuses,
) -> Seq<char> {
    test_line(styles, width, outcome_cell(styles, statuses), instance, statuses.last_status)
}

/// The line for a test at the end of the run.
pub open spec fn final_status_line(
    styles: Styles,
    width: usize,
    instance: TestInstance,
    statuses: ExecutionStatuses,
) -> Seq<char> {
    test_line(styles, width, final_outcome_cell(styles, statuses), instance, statuses.last_status)
}

/// The number of an attempt in the header of its output, if there may be others.
pub open spec fn attempt_text(retry_data: RetryData, style: Style) -> Seq<char> {
    if retry_data.total_attempts > 1 {
        style.painted("TRY"@) + " "@ + style.painted(text::decimal(retry_data.attempt as nat))
            + " "@
    } else {
        ""@
    }
}

/// The width that the number of an attempt takes up on the screen.
pub open spec fn attempt_width(retry_data: RetryData) -> nat {
    if retry_data.total_attempts > 1 {
        3 + 1 + text::decimal(retry_data.attempt as nat).len() + 1
    } else {
        0
    }
}

/// True if the number of an attempt fits in the header of its output.
pub open spec fn attempt_fits(retry_data: RetryData) -> bool {
    attempt_width(retry_data) <= 21
}

/// The header of what a test wrote to one of its streams.
pub open spec fn test_output_header(
    styles: Styles,
    width: usize,
    style: Style,
    label: Seq<char>,
    retry_data: RetryData,
    instance: TestInstance,
) -> Seq<char> {
    "\n"@ + style.painted("--- "@) + attempt_text(retry_data, style) + style.painted(
        text::pad_right(label, (21 - attempt_width(retry_data)) as nat),
    ) + instance_text(styles, width, instance) + style.painted(" ---"@) + "\n"@
}

/// The header of what a setup script wrote to one of its streams.
pub open spec fn script_output_header(
    styles: Styles,
    style: Style,
    label: Seq<char>,
    script_id: ScriptId,
    full_command: Seq<char>,
) -> Seq<char> {
    "\n"@ + style.painted("--- "@) + style.painted(text::pad_right(label, 21)) + script_text(
        styles,
        script_id,
        full_command,
    ) + style.painted(" ---"@) + "\n"@
}

/// Captured output as it is shown: in color mode as it is, with a reset at the end in case it left
/// some formatting on, and otherwise without its escape sequences.
pub open spec fn shown_output(styles: Styles, output: Seq<u8>) -> Seq<u8> {
    if styles.is_colorized {
        output + encode_utf8("\x1b[0m"@)
    } else {
        ansi::stripped(output)
    }
}

/// Captured output under its header, or nothing if there is none.
pub open spec fn output_block(header: Seq<char>, output: Seq<u8>, shown: Seq<u8>) -> Seq<u8> {
    if output.len() > 0 {
        encode_utf8(header) + shown
    } else {
        seq![]
    }
}

/// The style for the headers of an attempt's output.
pub open spec fn output_style(styles: Styles, result: ExecutionResult, is_retry: bool) -> Style {
    if is_retry {
        styles.retry
    } else if result.success() {
        styles.pass
    } else {
        styles.fail
    }
}

/// What a test wrote in an attempt.
pub open spec fn stdout_stderr(
    styles: Styles,
    width: usize,
    instance: TestInstance,
    status: ExecuteStatus,
    is_retry: bool,
) -> Seq<u8> {
    let style = output_style(styles, status.result, is_retry);
    output_block(
        test_output_header(styles, width, style, "STDOUT:"@, status.retry_data, instance),
        status.stdout@,
        shown_output(styles, status.stdout@),
    ) + output_block(
        test_output_header(styles, width, style, "STDERR:"@, status.retry_data, instance),
        status.stderr@,
        shown_output(styles, status.stderr@),
    ) + encode_utf8("\n"@)
}

/// True if what a test wrote in an attempt can be shown: there is nothing, or the number of the
/// attempt fits in the header.
pub open spec fn can_show_output(status: ExecuteStatus) -> bool {
    status.stdout@.len() > 0 || status.stderr@.len() > 0 ==> attempt_fits(status.retry_data)
}

/// Returns true if what a test wrote in an attempt can be shown.
pub fn output_can_be_shown(status: &ExecuteStatus) -> (r: bool)
    ensures
        r == can_show_output(*status),
{
    if status.stdout.len() == 0 && status.stderr.len() == 0 {
        return true;
    }
    if status.retry_data.total_attempts > 1 {
        let digits = text::decimal_string(status.retry_data.attempt as u64);
        digits.as_str().unicode_len() <= 16
    } else {
        true
    }
}

/// What a setup script wrote.
pub open spec fn script_stdout_stderr(
    styles: Styles,
    script_id: ScriptId,
    full_command: Seq<char>,
    status: SetupScriptExecuteStatus,
) -> Seq<u8> {
    let style = output_style(styles, status.result, false);
    output_block(
        script_output_header(styles, style, "STDOUT:"@, script_id, full_command),
        status.stdout@,
        shown_output(styles, status.stdout@),
    ) + output_block(
        script_output_header(styles, style, "STDERR:"@, script_id, full_command),
        status.stderr@,
        shown_output(styles, status.stderr@),
    ) + encode_utf8("\n"@)
}

/// Renders `TRY`, the number of an attempt, and how it came out.
pub fn try_string(attempt: usize, outcome: &str) -> (r: String)
    ensures
        r@ == try_text(attempt, outcome@),
{
    let mut s = "TRY ".to_owned();
    let number = text::decimal_string(attempt as u64);
    s.append(number.as_str());
    s.append(" ");
    s.append(outcome);
    s
}

/// Renders two numbers with a slash between them.
pub fn ratio_string(label: &str, n: usize, total: usize) -> (r: String)
    ensures
        r@ == ratio_text(label@, n, total),
{
    let mut s = label.to_owned();
    let number = text::decimal_string(n as u64);
    s.append(number.as_str());
    s.append("/");
    let total = text::decimal_string(total as u64);
    s.append(total.as_str());
    s
}

/// Renders the number of a setup script among all of them.
pub fn script_number_string(index: usize, total: usize) -> (r: String)
    requires
        index < usize::MAX,
    ensures
        r@ == script_number_text(index, total),
{
    let ratio = ratio_string("", index + 1, total);
    proof {
        reveal_strlit("");
        assert(""@ + text::decimal((index + 1) as nat) =~= text::decimal((index + 1) as nat));
    }
    let padded = text::right_aligned(ratio.as_str(), 9);
    let mut s = "[".to_owned();
    s.append(padded.as_str());
    s.append("] ");
    s
}

/// Writes captured output under its header, as it is shown.
pub fn write_output_block(header: &str, shown: &[u8], writer: &mut Vec<u8>)
    ensures
        final(writer)@ == old(writer)@ + (encode_utf8(header@) + shown@),
{
    text::push_text(writer, header);
    text::push_bytes(writer, shown);
    assert(writer@ =~= old(writer)@ + (encode_utf8(header@) + shown@));
}

impl<'a> TestReporterImpl<'a> {
    /// Writes the line for a skipped test.
    pub fn write_skip_line(&self, test_instance: TestInstance<'a>, out: &mut String)
        ensures
            final(out)@ == old(out)@ + skip_line(self.styles, self.binary_id_width, test_instance),
    {
        let mut s = status_cell_string(self.styles.skip, "SKIP");
        s.append("[         ] ");
        self.write_instance(test_instance, &mut s);
        s.append("\n");
        out.append(s.as_str());
    }

    /// Writes the line for a setup script that finished, given its command line.
    pub fn write_script_status_line(
        &self,
        script_id: &ScriptId,
        index: usize,
        total: usize,
        full_command: &str,
        result: &ExecutionResult,
        out: &mut String,
    )
        requires
            index < usize::MAX,
        ensures
            final(out)@ == old(out)@ + script_status_line(
                self.styles,
                *script_id,
                index,
                total,
                full_command@,
                *result,
            ),
    {
        let mut s = match result {
            ExecutionResult::Pass => status_cell_string(self.styles.pass, "SETUP PASS"),
            ExecutionResult::Leak => status_cell_string(self.styles.skip, "SETUP LEAK"),
            _ => {
                let status = runner::short_status_str(result);
                let mut setup_status = "SETUP ".to_owned();
                setup_status.append(status.as_str());
                status_cell_string(self.styles.fail, setup_status.as_str())
            },
        };
        let number = script_number_string(index, total);
        s.append(number.as_str());
        self.write_script_command(script_id, full_command, &mut s);
        s.append("\n");
        out.append(s.as_str());
    }

    /// Writes the line for a setup script that finished.
    pub fn write_setup_script_status_line(
        &self,
        script_id: &ScriptId,
        index: usize,
        total: usize,
        command: &str,
        args: &[String],
        status: &SetupScriptExecuteStatus,
        out: &mut String,
    )
        requires
            index < usize::MAX,
        ensures
            final(out)@ == old(out)@ + script_status_line(
                self.styles,
                *script_id,
                index,
                total,
                shell::command_line(shell::command_words(command, args)),
                status.result,
            ),
    {
        let full_command = shell::full_command(command, args);
        self.write_script_status_line(
            script_id,
            index,
            total,
            full_command.as_str(),
            &status.result,
            out,
        );
    }

    /// Renders the status of a test that failed.
    fn failure_cell_string(&self, status: &ExecuteStatus) -> (r: String)
        ensures
            r@ == failure_cell(self.styles, *status),
    {
        if status.retry_data.attempt == 1 {
            let text = runner::status_str(&status.result);
            status_cell_string(self.styles.fail, text.as_str())
        } else {
            let outcome = runner::short_status_str(&status.result);
            let text = try_string(status.retry_data.attempt, outcome.as_str());
            status_cell_string(self.styles.fail, text.as_str())
        }
    }

    /// Writes what follows the first column in the line for a test that finished.
    fn write_test_line(
        &self,
        cell: String,
        test_instance: TestInstance<'a>,
        status: &ExecuteStatus,
        out: &mut String,
    )
        ensures
            final(out)@ == old(out)@ + test_line(
                self.styles,
                self.binary_id_width,
                cell@,
                test_instance,
                *status,
            ),
    {
        let mut s = cell;
        self.write_duration(&status.time_taken, &mut s);
        self.write_instance(test_instance, &mut s);
        s.append("\n");
        match &status.result {
            ExecutionResult::Fail {
                abort_status: Some(AbortStatus::WindowsNtStatus { message }),
                ..
            } => {
                self.write_windows_message_line(message.as_str(), &mut s);
            },
            _ => {
                s.append("");
            },
        }
        out.append(s.as_str());
    }

    /// Writes the line for a test that finished.
    pub fn write_status_line(
        &self,
        test_instance: TestInstance<'a>,
        describe: &ExecutionStatuses,
        out: &mut String,
    )
        ensures
            final(out)@ == old(out)@ + status_line(
                self.styles,
                self.binary_id_width,
                test_instance,
                *describe,
            ),
    {
        let last_status = &describe.last_status;
        let cell = match describe.description {
            ExecutionDescription::Success => if matches!(last_status.result, ExecutionResult::Leak) {
                status_cell_string(self.styles.skip, "LEAK")
            } else {
                status_cell_string(self.styles.pass, "PASS")
            },
            ExecutionDescription::Flaky => {
                // Use the skip color to also represent a flaky test.
                let text = try_string(last_status.retry_data.attempt, "PASS");
                status_cell_string(self.styles.skip, text.as_str())
            },
            ExecutionDescription::Failure => self.failure_cell_string(last_status),
        };
        self.write_test_line(cell, test_instance, last_status, out);
    }

    /// Writes the line for a test at the end of the run.
    pub fn write_final_status_line(
        &self,
        test_instance: TestInstance<'a>,
        describe: &ExecutionStatuses,
        out: &mut String,
    )
        ensures
            final(out)@ == old(out)@ + final_status_line(
                self.styles,
                self.binary_id_width,
                test_instance,
                *describe,
            ),
    {
        let last_status = &describe.last_status;
        let cell = match describe.description {
            ExecutionDescription::Success => {
                let leaky = matches!(last_status.result, ExecutionResult::Leak);
                if last_status.is_slow && leaky {
                    status_cell_string(self.styles.skip, "SLOW + LEAK")
                } else if last_status.is_slow {
                    status_cell_string(self.styles.skip, "SLOW")
                } else if leaky {
                    status_cell_string(self.styles.skip, "LEAK")
                } else {
                    status_cell_string(self.styles.pass, "PASS")
                }
            },
            ExecutionDescription::Flaky => {
                // Use the skip color to also represent a flaky test.
                let text = ratio_string(
                    "FLAKY ",
                    last_status.retry_data.attempt,
                    last_status.retry_data.total_attempts,
                );
                status_cell_string(self.styles.skip, text.as_str())
            },
            ExecutionDescription::Failure => self.failure_cell_string(last_status),
        };
        self.write_test_line(cell, test_instance, last_status, out);
    }

    /// Writes a test: its binary ID and its name.
    pub fn write_instance(&self, instance: TestInstance<'a>, out: &mut String)
        ensures
            final(out)@ == old(out)@ + instance_text(self.styles, self.binary_id_width, instance),
    {
        let padded = text::right_aligned(
            instance.suite_info.binary_id.as_str(),
            self.binary_id_width,
        );
        let mut s = self.styles.list_styles.binary_id.paint(padded.as_str());
        s.append(" ");
        list::write_test_name(instance.name, &self.styles.list_styles, &mut s);
        out.append(s.as_str());
    }

    /// Writes a setup script: its ID and its command line.
    pub fn write_script_command(&self, script_id: &ScriptId, full_command: &str, out: &mut String)
        ensures
            final(out)@ == old(out)@ + script_text(self.styles, *script_id, full_command@),
    {
        let mut s = self.styles.script_id.paint(script_id.0.as_str());
        s.append(": ");
        s.append(full_command);
        out.append(s.as_str());
    }

    /// Writes a setup script: its ID and its command.
    pub fn write_setup_script(
        &self,
        script_id: &ScriptId,
        command: &str,
        args: &[String],
        out: &mut String,
    )
        ensures
            final(out)@ == old(out)@ + script_text(
                self.styles,
                *script_id,
                shell::command_line(shell::command_words(command, args)),
            ),
    {
        let full_command = shell::full_command(command, args);
        self.write_script_command(script_id, full_command.as_str(), out);
    }

    /// Writes a time span.
    pub fn write_duration(&self, duration: &TimeSpan, out: &mut String)
        ensures
            final(out)@ == old(out)@ + duration_text(*duration),
    {
        let padded = text::right_aligned(duration.seconds_text.as_str(), 8);
        let mut s = "[".to_owned();
        s.append(padded.as_str());
        s.append("s] ");
        out.append(s.as_str());
    }

    /// Writes a delay.
    pub fn write_duration_by(&self, duration: &TimeSpan, out: &mut String)
        ensures
            final(out)@ == old(out)@ + duration_by_text(*duration),
    {
        let padded = text::right_aligned(duration.seconds_text.as_str(), 7);
        let mut s = "by ".to_owned();
        s.append(padded.as_str());
        s.append("s ");
        out.append(s.as_str());
    }

    /// Writes a time span that has passed so far.
    pub fn write_slow_duration(&self, duration: &TimeSpan, out: &mut String)
        ensures
            final(out)@ == old(out)@ + slow_duration_text(*duration),
    {
        let padded = text::right_aligned(duration.seconds_text.as_str(), 7);
        let mut s = "[>".to_owned();
        s.append(padded.as_str());
        s.append("s] ");
        out.append(s.as_str());
    }

    /// Writes the line with the system's message on an abnormal exit on Windows.
    pub fn write_windows_message_line(&self, message: &str, out: &mut String)
        ensures
            final(out)@ == old(out)@ + windows_message_line(self.styles, message@),
    {
        let mut s = status_cell_string(self.styles.fail, "Message");
        s.append("[         ] ");
        s.append("code ");
        s.append(message);
        s.append("\n");
        out.append(s.as_str());
    }

    /// Returns captured output as it is shown.
    fn shown_output_bytes(&self, output: &Vec<u8>) -> (r: Vec<u8>)
        ensures
            r@ == shown_output(self.styles, output@),
    {
        let mut r: Vec<u8> = Vec::new();
        self.write_test_output(output.as_slice(), &mut r);
        assert(r@ =~= shown_output(self.styles, output@));
        r
    }

    /// Renders the header of what a setup script wrote to one of its streams.
    fn script_output_header_string(
        &self,
        style: Style,
        label: &str,
        script_id: &ScriptId,
        full_command: &str,
    ) -> (r: String)
        ensures
            r@ == script_output_header(self.styles, style, label@, *script_id, full_command@),
    {
        let mut s = "\n".to_owned();
        let dashes = style.paint("--- ");
        s.append(dashes.as_str());
        let padded = text::left_aligned(label, 21);
        let label = style.paint(padded.as_str());
        s.append(label.as_str());
        self.write_script_command(script_id, full_command, &mut s);
        let dashes = style.paint(" ---");
        s.append(dashes.as_str());
        s.append("\n");
        s
    }

    /// Writes what a setup script wrote, given its command line.
    pub fn write_script_stdout_stderr(
        &self,
        script_id: &ScriptId,
        full_command: &str,
        run_status: &SetupScriptExecuteStatus,
        writer: &mut Vec<u8>,
    )
        ensures
            final(writer)@ == old(writer)@ + script_stdout_stderr(
                self.styles,
                *script_id,
                full_command@,
                *run_status,
            ),
    {
        let header_style = if run_status.result.is_success() {
            self.styles.pass
        } else {
            self.styles.fail
        };
        let mut block: Vec<u8> = Vec::new();
        let ghost styles = self.styles;
        if run_status.stdout.len() > 0 {
            let header = self.script_output_header_string(
                header_style,
                "STDOUT:",
                script_id,
                full_command,
            );
            let shown = self.shown_output_bytes(&run_status.stdout);
            write_output_block(header.as_str(), shown.as_slice(), &mut block);
        }
        let ghost stdout_block = output_block(
            script_output_header(styles, header_style, "STDOUT:"@, *script_id, full_command@),
            run_status.stdout@,
            shown_output(styles, run_status.stdout@),
        );
        assert(block@ =~= stdout_block);
        if run_status.stderr.len() > 0 {
            let header = self.script_output_header_string(
                header_style,
                "STDERR:",
                script_id,
                full_command,
            );
            let shown = self.shown_output_bytes(&run_status.stderr);
            write_output_block(header.as_str(), shown.as_slice(), &mut block);
        }
        let ghost stderr_block = output_block(
            script_output_header(styles, header_style, "STDERR:"@, *script_id, full_command@),
            run_status.stderr@,
            shown_output(styles, run_status.stderr@),
        );
        assert(block@ =~= stdout_block + stderr_block);
        text::push_text(&mut block, "\n");
        text::push_bytes(writer, block.as_slice());
    }

    /// Writes what a setup script wrote.
    pub fn write_setup_script_stdout_stderr(
        &self,
        script_id: &ScriptId,
        command: &str,
        args: &[String],
        run_status: &SetupScriptExecuteStatus,
        writer: &mut Vec<u8>,
    )
        ensures
            final(writer)@ == old(writer)@ + script_stdout_stderr(
                self.styles,
                *script_id,
                shell::command_line(shell::command_words(command, args)),
                *run_status,
            ),
    {
        let full_command = shell::full_command(command, args);
        self.write_script_stdout_stderr(script_id, full_command.as_str(), run_status, writer);
    }

    /// Renders the header of what a test wrote to one of its streams.
    fn test_output_header_string(
        &self,
        style: Style,
        label: &str,
        run_status: &ExecuteStatus,
        test_instance: TestInstance<'a>,
    ) -> (r: String)
        requires
            attempt_fits(run_status.retry_data),
        ensures
            r@ == test_output_header(
                self.styles,
                self.binary_id_width,
                style,
                label@,
                run_status.retry_data,
                test_instance,
            ),
    {
        let mut s = "\n".to_owned();
        let dashes = style.paint("--- ");
        s.append(dashes.as_str());
        let out_len = self.write_attempt(run_status, style, &mut s);
        // The width is to align test instances.
        let padded = text::left_aligned(label, 21 - out_len);
        let label = style.paint(padded.as_str());
        s.append(label.as_str());
        self.write_instance(test_instance, &mut s);
        let dashes = style.paint(" ---");
        s.append(dashes.as_str());
        s.append("\n");
        s
    }

    /// Writes what a test wrote in an attempt.
    pub fn write_stdout_stderr(
        &self,
        test_instance: &TestInstance<'a>,
        run_status: &ExecuteStatus,
        is_retry: bool,
        writer: &mut Vec<u8>,
    )
        requires
            can_show_output(*run_status),
        ensures
            final(writer)@ == old(writer)@ + stdout_stderr(
                self.styles,
                self.binary_id_width,
                *test_instance,
                *run_status,
                is_retry,
            ),
    {
        let header_style = if is_retry {
            self.styles.retry
        } else if run_status.result.is_success() {
            self.styles.pass
        } else {
            self.styles.fail
        };
        let mut block: Vec<u8> = Vec::new();
        let ghost styles = self.styles;
        let ghost width = self.binary_id_width;
        if run_status.stdout.len() > 0 {
            let header = self.test_output_header_string(
                header_style,
                "STDOUT:",
                run_status,
                *test_instance,
            );
            let shown = self.shown_output_bytes(&run_status.stdout);
            write_output_block(header.as_str(), shown.as_slice(), &mut block);
        }
        let ghost stdout_block = output_block(
            test_output_header(
                styles,
                width,
                header_style,
                "STDOUT:"@,
                run_status.retry_data,
                *test_instance,
            ),
            run_status.stdout@,
            shown_output(styles, run_status.stdout@),
        );
        assert(block@ =~= stdout_block);
        if run_status.stderr.len() > 0 {
            let header = self.test_output_header_string(
                header_style,
                "STDERR:",
                run_status,
                *test_instance,
            );
            let shown = self.shown_output_bytes(&run_status.stderr);
            write_output_block(header.as_str(), shown.as_slice(), &mut block);
        }
        let ghost stderr_block = output_block(
            test_output_header(
                styles,
                width,
                header_style,
                "STDERR:"@,
                run_status.retry_data,
                *test_instance,
            ),
            run_status.stderr@,
            shown_output(styles, run_status.stderr@),
        );
        assert(block@ =~= stdout_block + stderr_block);
        text::push_text(&mut block, "\n");
        text::push_bytes(writer, block.as_slice());
    }

    /// Writes captured output as it is shown.
    pub fn write_test_output(&self, output: &[u8], writer: &mut Vec<u8>)
        ensures
            final(writer)@ == old(writer)@ + shown_output(self.styles, output@),
    {
        if self.styles.is_colorized {
            // Output the text without stripping ANSI escapes, then reset the color afterwards in
            // case the output is malformed.
            text::push_bytes(writer, output);
            text::push_text(writer, "\x1b[0m");
        } else {
            // Strip ANSI escapes from the output if the report itself isn't colorized.
            let plain = ansi::strip(output);
            text::push_bytes(writer, plain.as_slice());
        }
        assert(writer@ =~= old(writer)@ + shown_output(self.styles, output@));
    }

    /// Writes the number of an attempt if there may be others, and returns the width that it takes
    /// up on the screen.
    pub fn write_attempt(&self, run_status: &ExecuteStatus, style: Style, out: &mut String) -> (r:
        usize)
        ensures
            r == attempt_width(run_status.retry_data),
            final(out)@ == old(out)@ + attempt_text(run_status.retry_data, style),
    {
        if run_status.retry_data.total_attempts > 1 {
            // 3 for 'TRY' + 1 for ' ' + length of the current attempt + 1 for following space.
            let attempt_str = text::decimal_string(run_status.retry_data.attempt as u64);
            proof {
                text::lemma_decimal_len_u64(run_status.retry_data.attempt as u64);
            }
            let out_len = 3 + 1 + attempt_str.as_str().unicode_len() + 1;
            let mut s = style.paint("TRY");
            s.append(" ");
            let number = style.paint(attempt_str.as_str());
            s.append(number.as_str());
            s.append(" ");
            out.append(s.as_str());
            out_len
        } else {
            out.append("");
            0
        }
    }
}

} // verus!
