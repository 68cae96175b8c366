//! What the test runner says about the tests, attempts and setup scripts that it ran.

use crate::levels::{FinalStatusLevel, StatusLevel};
use crate::text;
use std::sync::Arc;
use vstd::prelude::*;
use vstd::string::*;

verus! {

/// A span of time.
#[derive(Debug)]
pub struct TimeSpan {
    /// The whole seconds.
    pub secs: u64,
    /// The nanoseconds beyond the whole seconds.
    pub subsec_nanos: u32,
    /// The span in seconds, with three digits after the decimal point.
    ///
    /// Rounding to those digits goes through floating point, so whoever measured the span renders
    /// it.
    pub seconds_text: String,
}

impl Clone for TimeSpan {
    fn clone(&self) -> (r: TimeSpan)
        ensures
            r == *self,
    {
        TimeSpan {
            secs: self.secs,
            subsec_nanos: self.subsec_nanos,
            seconds_text: self.seconds_text.clone(),
        }
    }
}

impl TimeSpan {
    /// True if no time passes.
    pub open spec fn zero(self) -> bool {
        self.secs == 0 && self.subsec_nanos == 0
    }

    /// The span in nanoseconds.
    pub open spec fn nanos(self) -> int {
        self.secs * 1_000_000_000 + self.subsec_nanos
    }

    /// True if the text is the span in seconds, with three digits after the decimal point, and off
    /// by less than one in the last digit.
    pub open spec fn is_rendered(self) -> bool {
        exists|millis: nat|
            {
                &&& self.seconds_text@ == #[trigger] text::thousandths(millis)
                &&& -1_000_000 < millis * 1_000_000 - self.nanos() < 1_000_000
            }
    }

    /// Returns true if no time passes.
    pub fn is_zero(&self) -> (r: bool)
        ensures
            r == self.zero(),
    {
        self.secs == 0 && self.subsec_nanos == 0
    }
}

/// How a process came to an abnormal end.
#[derive(Debug)]
pub enum AbortStatus {
    /// On Unix, by a signal.
    UnixSignal {
        /// The number of the signal.
        number: i32,
        /// The name of the signal without `SIG`, for the signals that have a known one.
        name: Option<&'static str>,
    },
    /// On Windows, by an abnormal exit.
    WindowsNtStatus {
        /// The exit code with the system's description of it.
        message: String,
    },
}

impl Clone for AbortStatus {
    fn clone(&self) -> (r: AbortStatus)
        ensures
            r == *self,
    {
        match self {
            AbortStatus::UnixSignal { number, name } => AbortStatus::UnixSignal {
                number: *number,
                name: *name,
            },
            AbortStatus::WindowsNtStatus { message } => AbortStatus::WindowsNtStatus {
                message: message.clone(),
            },
        }
    }
}

/// Whether an execution passed, and how it did not.
#[derive(Debug)]
pub enum ExecutionResult {
    /// It passed.
    Pass,
    /// It passed, and left something behind that still held its standard output or error open.
    Leak,
    /// It failed.
    Fail {
        /// How it was aborted, if it was.
        abort_status: Option<AbortStatus>,
        /// Whether it left something behind that still held its standard output or error open.
        leaked: bool,
    },
    /// It could not be executed.
    ExecFail,
    /// It ran into its timeout.
    Timeout,
}

impl Clone for ExecutionResult {
    fn clone(&self) -> (r: ExecutionResult)
        ensures
            r == *self,
    {
        match self {
            ExecutionResult::Pass => ExecutionResult::Pass,
            ExecutionResult::Leak => ExecutionResult::Leak,
            ExecutionResult::Fail { abort_status, leaked } => {
                let abort_status = match abort_status {
                    Some(status) => Some(status.clone()),
                    None => None,
                };
                ExecutionResult::Fail { abort_status, leaked: *leaked }
            },
            ExecutionResult::ExecFail => ExecutionResult::ExecFail,
            ExecutionResult::Timeout => ExecutionResult::Timeout,
        }
    }
}

impl ExecutionResult {
    /// True if the execution counts as passed.
    pub open spec fn success(self) -> bool {
        self is Pass || self is Leak
    }

    /// Returns true if the execution counts as passed.
    pub fn is_success(&self) -> (r: bool)
        ensures
            r == self.success(),
    {
        match self {
            ExecutionResult::Pass | ExecutionResult::Leak => true,
            ExecutionResult::Fail { .. } | ExecutionResult::ExecFail | ExecutionResult::Timeout => {
                false
            },
        }
    }
}

/// Which attempt at running a test this is.
#[derive(Copy, Clone, Debug, PartialEq, Eq, Structural)]
pub struct RetryData {
    /// The number of this attempt, from 1.
    pub attempt: usize,
    /// The number of attempts that are made at most.
    pub total_attempts: usize,
}

impl RetryData {
    /// True if no attempt comes after this one.
    pub open spec fn last_attempt(self) -> bool {
        self.attempt >= self.total_attempts
    }

    /// Returns true if no attempt comes after this one.
    pub fn is_last_attempt(self) -> (r: bool)
        ensures
            r == self.last_attempt(),
    {
        self.attempt >= self.total_attempts
    }
}

/// One attempt at running a test.
#[derive(Debug)]
pub struct ExecuteStatus {
    /// Which attempt this is.
    pub retry_data: RetryData,
    /// What the test wrote to its standard output.
    pub stdout: Arc<Vec<u8>>,
    /// What the test wrote to its standard error.
    pub stderr: Arc<Vec<u8>>,
    /// Whether the test passed.
    pub result: ExecutionResult,
    /// How long it took.
    pub time_taken: TimeSpan,
    /// Whether it counts as slow.
    pub is_slow: bool,
}

impl Clone for ExecuteStatus {
    fn clone(&self) -> (r: ExecuteStatus)
        ensures
            r == *self,
    {
        ExecuteStatus {
            retry_data: self.retry_data,
            stdout: self.stdout.clone(),
            stderr: self.stderr.clone(),
            result: self.result.clone(),
            time_taken: self.time_taken.clone(),
            is_slow: self.is_slow,
        }
    }
}

/// One execution of a setup script.
#[derive(Debug)]
pub struct SetupScriptExecuteStatus {
    /// What the script wrote to its standard output.
    pub stdout: Arc<Vec<u8>>,
    /// What the script wrote to its standard error.
    pub stderr: Arc<Vec<u8>>,
    /// Whether the script passed.
    pub result: ExecutionResult,
}

impl Clone for SetupScriptExecuteStatus {
    fn clone(&self) -> (r: SetupScriptExecuteStatus)
        ensures
            r == *self,
    {
        SetupScriptExecuteStatus {
            stdout: self.stdout.clone(),
            stderr: self.stderr.clone(),
            result: self.result.clone(),
        }
    }
}

/// How the attempts at a test came out, taken together.
#[derive(Copy, Clone, Debug, PartialEq, Eq, Structural)]
pub enum ExecutionDescription {
    /// The test passed at the first attempt.
    Success,
    /// The test passed at a later attempt.
    Flaky,
    /// The test did not pass.
    Failure,
}

/// All the attempts at a test.
#[derive(Debug)]
pub struct ExecutionStatuses {
    /// How the attempts came out, taken together.
    pub description: ExecutionDescription,
    /// The level at which this outcome is shown when the test is done.
    pub status_level: StatusLevel,
    /// The level at which this outcome is shown at the end of the run.
    pub final_status_level: FinalStatusLevel,
    /// The last attempt.
    pub last_status: ExecuteStatus,
}

impl Clone for ExecutionStatuses {
    fn clone(&self) -> (r: ExecutionStatuses)
        ensures
            r == *self,
    {
        ExecutionStatuses {
            description: self.description,
            status_level: self.status_level,
            final_status_level: self.final_status_level,
            last_status: self.last_status.clone(),
        }
    }
}

/// The counts of a run so far.
#[derive(Copy, Clone, Debug, PartialEq, Eq, Structural)]
pub struct RunStats {
    /// The number of tests that were expected to run.
    pub initial_run_count: usize,
    /// The number of tests that finished.
    pub finished_count: usize,
    /// The number of tests that passed.
    pub passed: usize,
    /// The number of tests that passed and were slow.
    pub passed_slow: usize,
    /// The number of tests that passed at a later attempt.
    pub flaky: usize,
    /// The number of tests that failed.
    pub failed: usize,
    /// The number of tests that ran into their timeout.
    pub timed_out: usize,
    /// The number of tests that passed and were leaky.
    pub leaky: usize,
    /// The number of tests that could not be executed.
    pub exec_failed: usize,
    /// The number of tests that were skipped.
    pub skipped: usize,
    /// Whether the runner counts the run as failed, for whatever kind of failure.
    pub has_failure: bool,
}

/// The text for a result.
pub open spec fn status_text(result: ExecutionResult) -> Seq<char> {
    match result {
        ExecutionResult::Fail { abort_status: Some(AbortStatus::UnixSignal { number, name }), .. } => {
            match name {
                Some(s) => "SIG"@ + s@,
                None => "ABORT SIG "@ + text::signed_decimal(number as int),
            }
        },
        ExecutionResult::Fail { abort_status: Some(AbortStatus::WindowsNtStatus { .. }), .. } => {
            "ABORT"@
        },
        ExecutionResult::Fail { abort_status: None, leaked: true } => "FAIL + LEAK"@,
        ExecutionResult::Fail { abort_status: None, leaked: false } => "FAIL"@,
        ExecutionResult::ExecFail => "XFAIL"@,
        ExecutionResult::Pass => "PASS"@,
        ExecutionResult::Leak => "LEAK"@,
        ExecutionResult::Timeout => "TIMEOUT"@,
    }
}

/// Returns the text for a result, to be shown on its own.
pub fn status_str(result: &ExecutionResult) -> (r: String)
    ensures
        r@ == status_text(*result),
{
    match result {
        ExecutionResult::Fail { abort_status, leaked } => match abort_status {
            Some(AbortStatus::UnixSignal { number, name }) => match name {
                Some(s) => {
                    let mut text = "SIG".to_owned();
                    text.append(s);
                    text
                },
                None => {
                    let mut text = "ABORT SIG ".to_owned();
                    let sig = text::signed_decimal_string(*number);
                    text.append(sig.as_str());
                    text
                },
            },
            // The full message goes on the following line.
            Some(AbortStatus::WindowsNtStatus { .. }) => "ABORT".to_owned(),
            None => if *leaked {
                "FAIL + LEAK".to_owned()
            } else {
                "FAIL".to_owned()
            },
        },
        ExecutionResult::ExecFail => "XFAIL".to_owned(),
        ExecutionResult::Pass => "PASS".to_owned(),
        ExecutionResult::Leak => "LEAK".to_owned(),
        ExecutionResult::Timeout => "TIMEOUT".to_owned(),
    }
}

/// The text for a result, where something else shares the column with it.
pub open spec fn short_status_text(result: ExecutionResult) -> Seq<char> {
    match result {
        ExecutionResult::Fail { abort_status: Some(AbortStatus::UnixSignal { number, name }), .. } => {
            match name {
                Some(s) => s@,
                None => "SIG "@ + text::signed_decimal(number as int),
            }
        },
        ExecutionResult::Fail { abort_status: Some(AbortStatus::WindowsNtStatus { .. }), .. } => {
            "ABORT"@
        },
        ExecutionResult::Fail { abort_status: None, .. } => "FAIL"@,
        ExecutionResult::ExecFail => "XFAIL"@,
        ExecutionResult::Pass => "PASS"@,
        ExecutionResult::Leak => "LEAK"@,
        ExecutionResult::Timeout => "TMT"@,
    }
}

/// Returns the text for a result, to be shown where something else shares the column with it.
pub fn short_status_str(result: &ExecutionResult) -> (r: String)
    ensures
        r@ == short_status_text(*result),
{
    match result {
        ExecutionResult::Fail { abort_status, .. } => match abort_status {
            Some(AbortStatus::UnixSignal { number, name }) => match name {
                Some(s) => {
                    let s: &str = s;
                    s.to_owned()
                },
                None => {
                    let mut text = "SIG ".to_owned();
                    let sig = text::signed_decimal_string(*number);
                    text.append(sig.as_str());
                    text
                },
            },
            // The full message goes on the following line.
            Some(AbortStatus::WindowsNtStatus { .. }) => "ABORT".to_owned(),
            None => "FAIL".to_owned(),
        },
        ExecutionResult::ExecFail => "XFAIL".to_owned(),
        ExecutionResult::Pass => "PASS".to_owned(),
        ExecutionResult::Leak => "LEAK".to_owned(),
        ExecutionResult::Timeout => "TMT".to_owned(),
    }
}

} // verus!
