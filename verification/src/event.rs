//! The events of a test run.

use crate::levels::{CancelReason, TestOutputDisplay};
use crate::list::{MismatchReason, TestInstance, TestList};
use crate::runner::{
    ExecuteStatus, ExecutionStatuses, RetryData, RunStats, SetupScriptExecuteStatus, TimeSpan,
};
use vstd::prelude::*;

verus! {

/// The ID of a run. Nothing is stated of it: it is carried from the runner to whoever records runs.
#[verifier::external_type_specification]
#[verifier::external_body]
pub struct ExternalUuid(uuid::Uuid);

/// A point in time. Nothing is stated of it: it is carried from the runner to whoever records runs.
#[verifier::external_type_specification]
#[verifier::external_body]
pub struct ExternalSystemTime(std::time::SystemTime);

/// The ID of a setup script.
#[derive(Debug)]
pub struct ScriptId(pub String);

impl Clone for ScriptId {
    fn clone(&self) -> (r: ScriptId)
        ensures
            r == *self,
    {
        ScriptId(self.0.clone())
    }
}

/// A test event.
///
/// Events are produced by a test runner and consumed by a
/// [`TestReporter`](crate::builder::TestReporter).
#[derive(Debug)]
pub struct TestEvent<'a> {
    /// The amount of time elapsed since the start of the test run.
    pub elapsed: std::time::Duration,
    /// The kind of test event this is.
    pub kind: TestEventKind<'a>,
}

impl<'a> Clone for TestEvent<'a> {
    fn clone(&self) -> (r: TestEvent<'a>)
        ensures
            r == *self,
    {
        TestEvent { elapsed: self.elapsed, kind: self.kind.clone() }
    }
}

/// The kind of test event this is.
///
/// Forms part of [`TestEvent`].
#[allow(inconsistent_fields)]
#[derive(Debug)]
pub enum TestEventKind<'a> {
    /// The test run started.
    RunStarted {
        /// The list of tests that will be run.
        ///
        /// The counts of the test list indicate the number of tests that will be run.
        test_list: &'a TestList,
        /// The UUID for this run.
        run_id: uuid::Uuid,
    },
    /// A setup script started.
    SetupScriptStarted {
        /// The setup script index.
        index: usize,
        /// The total number of setup scripts.
        total: usize,
        /// The script ID.
        script_id: ScriptId,
        /// The command to run.
        command: &'a str,
        /// The arguments to the command.
        args: &'a [String],
        /// True if some output from the setup script is being passed through.
        no_capture: bool,
    },
    /// A setup script was slow.
    SetupScriptSlow {
        /// The script ID.
        script_id: ScriptId,
        /// The command to run.
        command: &'a str,
        /// The arguments to the command.
        args: &'a [String],
        /// The amount of time elapsed since the start of execution.
        elapsed: TimeSpan,
        /// True if the script has hit its timeout and is about to be terminated.
        will_terminate: bool,
    },
    /// A setup script completed execution.
    SetupScriptFinished {
        /// The setup script index.
        index: usize,
        /// The total number of setup scripts.
        total: usize,
        /// The script ID.
        script_id: ScriptId,
        /// The command to run.
        command: &'a str,
        /// The arguments to the command.
        args: &'a [String],
        /// True if some output from the setup script was passed through.
        no_capture: bool,
        /// The execution status of the setup script.
        run_status: SetupScriptExecuteStatus,
    },
    /// A test started running.
    TestStarted {
        /// The test instance that was started.
        test_instance: TestInstance<'a>,
        /// Current run statistics so far.
        current_stats: RunStats,
        /// The number of tests currently running, including this one.
        running: usize,
        /// The cancel status of the run. This is None if the run is still ongoing.
        cancel_state: Option<CancelReason>,
    },
    /// A test was slower than a configured soft timeout.
    TestSlow {
        /// The test instance that was slow.
        test_instance: TestInstance<'a>,
        /// Retry data.
        retry_data: RetryData,
        /// The amount of time that has elapsed since the beginning of the test.
        elapsed: TimeSpan,
        /// True if the test has hit its timeout and is about to be terminated.
        will_terminate: bool,
    },
    /// A test attempt failed and will be retried in the future.
    ///
    /// This event does not occur on the final run of a failing test.
    TestAttemptFailedWillRetry {
        /// The test instance that is being retried.
        test_instance: TestInstance<'a>,
        /// The status of this attempt to run the test. Will never be success.
        run_status: ExecuteStatus,
        /// The delay before the next attempt to run the test.
        delay_before_next_attempt: TimeSpan,
        /// Whether failure outputs are printed out.
        failure_output: TestOutputDisplay,
    },
    /// A retry has started.
    TestRetryStarted {
        /// The test instance that is being retried.
        test_instance: TestInstance<'a>,
        /// Data related to retries.
        retry_data: RetryData,
    },
    /// A test finished running.
    TestFinished {
        /// The test instance that finished running.
        test_instance: TestInstance<'a>,
        /// Test setting for success output.
        success_output: TestOutputDisplay,
        /// Test setting for failure output.
        failure_output: TestOutputDisplay,
        /// Whether the JUnit report should store success output for this test.
        junit_store_success_output: bool,
        /// Whether the JUnit report should store failure output for this test.
        junit_store_failure_output: bool,
        /// Information about all the runs for this test.
        run_statuses: ExecutionStatuses,
        /// Current statistics for number of tests so far.
        current_stats: RunStats,
        /// The number of tests that are currently running, excluding this one.
        running: usize,
        /// The cancel status of the run. This is None if the run is still ongoing.
        cancel_state: Option<CancelReason>,
    },
    /// A test was skipped.
    TestSkipped {
        /// The test instance that was skipped.
        test_instance: TestInstance<'a>,
        /// The reason this test was skipped.
        reason: MismatchReason,
    },
    /// A cancellation notice was received.
    RunBeginCancel {
        /// The number of setup scripts still running.
        setup_scripts_running: usize,
        /// The number of tests still running.
        running: usize,
        /// The reason this run was canceled.
        reason: CancelReason,
    },
    /// A SIGTSTP event was received and the run was paused.
    RunPaused {
        /// The number of setup scripts running.
        setup_scripts_running: usize,
        /// The number of tests currently running.
        running: usize,
    },
    /// A SIGCONT event was received and the run is being continued.
    RunContinued {
        /// The number of setup scripts that will be started up again.
        setup_scripts_running: usize,
        /// The number of tests that will be started up again.
        running: usize,
    },
    /// The test run finished.
    RunFinished {
        /// The unique ID for this run.
        run_id: uuid::Uuid,
        /// The time at which the run was started.
        start_time: std::time::SystemTime,
        /// The amount of time it took for the tests to run.
        elapsed: TimeSpan,
        /// Statistics for the run.
        run_stats: RunStats,
    },
}

impl<'a> Clone for TestEventKind<'a> {
    fn clone(&self) -> (r: TestEventKind<'a>)
        ensures
            r == *self,
    {
        match self {
            TestEventKind::RunStarted { test_list, run_id } => TestEventKind::RunStarted {
                test_list,
                run_id: *run_id,
            },
            TestEventKind::SetupScriptStarted {
                index,
                total,
                script_id,
                command,
                args,
                no_capture,
            } => TestEventKind::SetupScriptStarted {
                index: *index,
                total: *total,
                script_id: script_id.clone(),
                command,
                args,
                no_capture: *no_capture,
            },
            TestEventKind::SetupScriptSlow { script_id, command, args, elapsed, will_terminate } => {
                TestEventKind::SetupScriptSlow {
                    script_id: script_id.clone(),
                    command,
                    args,
                    elapsed: elapsed.clone(),
                    will_terminate: *will_terminate,
                }
            },
            TestEventKind::SetupScriptFinished {
                index,
                total,
                script_id,
                command,
                args,
                no_capture,
                run_status,
            } => TestEventKind::SetupScriptFinished {
                index: *index,
                total: *total,
                script_id: script_id.clone(),
                command,
                args,
                no_capture: *no_capture,
                run_status: run_status.clone(),
            },
            TestEventKind::TestStarted { test_instance, current_stats, running, cancel_state } => {
                TestEventKind::TestStarted {
                    test_instance: *test_instance,
                    current_stats: *current_stats,
                    running: *running,
                    cancel_state: *cancel_state,
                }
            },
            TestEventKind::TestSlow { test_instance, retry_data, elapsed, will_terminate } => {
                TestEventKind::TestSlow {
                    test_instance: *test_instance,
                    retry_data: *retry_data,
                    elapsed: elapsed.clone(),
                    will_terminate: *will_terminate,
                }
            },
            TestEventKind::TestAttemptFailedWillRetry {
                test_instance,
                run_status,
                delay_before_next_attempt,
                failure_output,
            } => TestEventKind::TestAttemptFailedWillRetry {
                test_instance: *test_instance,
                run_status: run_status.clone(),
                delay_before_next_attempt: delay_before_next_attempt.clone(),
                failure_output: *failure_output,
            },
            TestEventKind::TestRetryStarted { test_instance, retry_data } => {
                TestEventKind::TestRetryStarted {
                    test_instance: *test_instance,
                    retry_data: *retry_data,
                }
            },
            TestEventKind::TestFinished {
                test_instance,
                success_output,
                failure_output,
                junit_store_success_output,
                junit_store_failure_output,
                run_statuses,
                current_stats,
                running,
                cancel_state,
            } => TestEventKind::TestFinished {
                test_instance: *test_instance,
                success_output: *success_output,
                failure_output: *failure_output,
                junit_store_success_output: *junit_store_success_output,
                junit_store_failure_output: *junit_store_failure_output,
                run_statuses: run_statuses.clone(),
                current_stats: *current_stats,
                running: *running,
                cancel_state: *cancel_state,
            },
            TestEventKind::TestSkipped { test_instance, reason } => TestEventKind::TestSkipped {
                test_instance: *test_instance,
                reason: *reason,
            },
            TestEventKind::RunBeginCancel { setup_scripts_running, running, reason } => {
                TestEventKind::RunBeginCancel {
                    setup_scripts_running: *setup_scripts_running,
                    running: *running,
                    reason: *reason,
                }
            },
            TestEventKind::RunPaused { setup_scripts_running, running } => TestEventKind::RunPaused {
                setup_scripts_running: *setup_scripts_running,
                running: *running,
            },
            TestEventKind::RunContinued { setup_scripts_running, running } => {
                TestEventKind::RunContinued {
                    setup_scripts_running: *setup_scripts_running,
                    running: *running,
                }
            },
            TestEventKind::RunFinished { run_id, start_time, elapsed, run_stats } => {
                TestEventKind::RunFinished {
                    run_id: *run_id,
                    start_time: *start_time,
                    elapsed: elapsed.clone(),
                    run_stats: *run_stats,
                }
            },
        }
    }
}

} // verus!
