//! Which statuses are shown, and when test output is shown.

use vstd::prelude::*;

verus! {

/// Status level to show in the reporter output.
///
/// Status levels are incremental: each level causes all the statuses listed above it to be output. For example,
/// [`Slow`](Self::Slow) implies [`Retry`](Self::Retry) and [`Fail`](Self::Fail).
#[derive(Copy, Clone, Debug, PartialEq, Eq, PartialOrd, Ord, Structural)]
#[non_exhaustive]
pub enum StatusLevel {
    /// No output.
    NoOutput,
    /// Only output test failures.
    Fail,
    /// Output retries and failures.
    Retry,
    /// Output information about slow tests, and all variants above.
    Slow,
    /// Output information about leaky tests, and all variants above.
    Leak,
    /// Output passing tests in addition to all variants above.
    Pass,
    /// Output skipped tests in addition to all variants above.
    Skip,
    /// Currently has the same meaning as [`Skip`](Self::Skip).
    All,
}

impl StatusLevel {
    /// The position of this level, from the least to the most output.
    pub open spec fn rank(self) -> int {
        match self {
            StatusLevel::NoOutput => 0,
            StatusLevel::Fail => 1,
            StatusLevel::Retry => 2,
            StatusLevel::Slow => 3,
            StatusLevel::Leak => 4,
            StatusLevel::Pass => 5,
            StatusLevel::Skip => 6,
            StatusLevel::All => 7,
        }
    }

    fn ordinal(self) -> (r: u8)
        ensures
            r == self.rank(),
    {
        match self {
            StatusLevel::NoOutput => 0,
            StatusLevel::Fail => 1,
            StatusLevel::Retry => 2,
            StatusLevel::Slow => 3,
            StatusLevel::Leak => 4,
            StatusLevel::Pass => 5,
            StatusLevel::Skip => 6,
            StatusLevel::All => 7,
        }
    }

    /// Returns true if statuses of the level `required` are shown at this level.
    pub fn shows(self, required: StatusLevel) -> (r: bool)
        ensures
            r == (self.rank() >= required.rank()),
    {
        self.ordinal() >= required.ordinal()
    }

    /// The higher one of two levels.
    pub open spec fn higher(self, other: StatusLevel) -> StatusLevel {
        if self.rank() >= other.rank() {
            self
        } else {
            other
        }
    }

    /// Returns this level, raised to `other` if it is lower.
    pub fn raised_to(self, other: StatusLevel) -> (r: StatusLevel)
        ensures
            r == self.higher(other),
    {
        if self.shows(other) {
            self
        } else {
            other
        }
    }
}

/// Status level to show at the end of test runs in the reporter output.
///
/// Status levels are incremental.
///
/// This differs from [`StatusLevel`] in two ways:
/// * It has a "flaky" test indicator that's different from "retry" (though "retry" works as an alias.)
/// * It has a different ordering: skipped tests are prioritized over passing ones.
#[derive(Copy, Clone, Debug, PartialEq, Eq, PartialOrd, Ord, Structural)]
#[non_exhaustive]
pub enum FinalStatusLevel {
    /// No output.
    NoOutput,
    /// Only output test failures.
    Fail,
    /// Output flaky tests.
    Flaky,
    /// Output information about slow tests, and all variants above.
    Slow,
    /// Output skipped tests in addition to all variants above.
    Skip,
    /// Output leaky tests in addition to all variants above.
    Leak,
    /// Output passing tests in addition to all variants above.
    Pass,
    /// Currently has the same meaning as [`Pass`](Self::Pass).
    All,
}

impl FinalStatusLevel {
    /// The position of this level, from the least to the most output.
    pub open spec fn rank(self) -> int {
        match self {
            FinalStatusLevel::NoOutput => 0,
            FinalStatusLevel::Fail => 1,
            FinalStatusLevel::Flaky => 2,
            FinalStatusLevel::Slow => 3,
            FinalStatusLevel::Skip => 4,
            FinalStatusLevel::Leak => 5,
            FinalStatusLevel::Pass => 6,
            FinalStatusLevel::All => 7,
        }
    }

    pub(crate) fn ordinal(self) -> (r: u8)
        ensures
            r == self.rank(),
    {
        match self {
            FinalStatusLevel::NoOutput => 0,
            FinalStatusLevel::Fail => 1,
            FinalStatusLevel::Flaky => 2,
            FinalStatusLevel::Slow => 3,
            FinalStatusLevel::Skip => 4,
            FinalStatusLevel::Leak => 5,
            FinalStatusLevel::Pass => 6,
            FinalStatusLevel::All => 7,
        }
    }

    /// Returns true if statuses of the level `required` are shown at this level.
    pub fn shows(self, required: FinalStatusLevel) -> (r: bool)
        ensures
            r == (self.rank() >= required.rank()),
    {
        self.ordinal() >= required.ordinal()
    }
}

// Note: the order here matters -- it indicates severity of cancellation
/// The reason why a test run is being cancelled.
#[derive(Copy, Clone, Debug, PartialEq, Eq, PartialOrd, Ord, Structural)]
pub enum CancelReason {
    /// A setup script failed.
    SetupScriptFailure,
    /// A test failed and --no-fail-fast wasn't specified.
    TestFailure,
    /// An error occurred while reporting results.
    ReportError,
    /// A termination signal (on Unix, SIGTERM or SIGHUP) was received.
    Signal,
    /// An interrupt (on Unix, Ctrl-C) was received.
    Interrupt,
}

impl CancelReason {
    /// The severity of this reason: the higher, the more severe.
    pub open spec fn severity(self) -> int {
        match self {
            CancelReason::SetupScriptFailure => 1,
            CancelReason::TestFailure => 2,
            CancelReason::ReportError => 3,
            CancelReason::Signal => 4,
            CancelReason::Interrupt => 5,
        }
    }

    fn ordinal(self) -> (r: u8)
        ensures
            r == self.severity(),
    {
        match self {
            CancelReason::SetupScriptFailure => 1,
            CancelReason::TestFailure => 2,
            CancelReason::ReportError => 3,
            CancelReason::Signal => 4,
            CancelReason::Interrupt => 5,
        }
    }

    /// The text that names this reason.
    pub open spec fn text(self) -> Seq<char> {
        match self {
            CancelReason::SetupScriptFailure => "setup script failure"@,
            CancelReason::TestFailure => "test failure"@,
            CancelReason::ReportError => "error"@,
            CancelReason::Signal => "signal"@,
            CancelReason::Interrupt => "interrupt"@,
        }
    }

    /// Returns the text that names this reason.
    pub fn as_str(self) -> (r: &'static str)
        ensures
            r@ == self.text(),
    {
        match self {
            CancelReason::SetupScriptFailure => "setup script failure",
            CancelReason::TestFailure => "test failure",
            CancelReason::ReportError => "error",
            CancelReason::Signal => "signal",
            CancelReason::Interrupt => "interrupt",
        }
    }
}

/// The severity of a cancel status; a run that is not canceled has the lowest one.
pub open spec fn cancel_severity(status: Option<CancelReason>) -> int {
    match status {
        Some(reason) => reason.severity(),
        None => 0,
    }
}

/// True if the run was canceled by a signal or an interrupt.
pub open spec fn stopped_by_signal(status: Option<CancelReason>) -> bool {
    cancel_severity(status) >= CancelReason::Signal.severity()
}

/// Returns true if the run was canceled by a signal or an interrupt.
pub fn is_stopped_by_signal(status: Option<CancelReason>) -> (r: bool)
    ensures
        r == stopped_by_signal(status),
{
    match status {
        Some(reason) => reason.ordinal() >= CancelReason::Signal.ordinal(),
        None => false,
    }
}

/// The cancel status after one more reason: the more severe one of the two.
pub open spec fn escalate(status: Option<CancelReason>, reason: CancelReason) -> Option<CancelReason> {
    if cancel_severity(status) > reason.severity() {
        status
    } else {
        Some(reason)
    }
}

/// Returns the cancel status after one more reason: the more severe one of the two.
pub fn escalated(status: Option<CancelReason>, reason: CancelReason) -> (r: Option<CancelReason>)
    ensures
        r == escalate(status, reason),
{
    match status {
        Some(before) => if before.ordinal() > reason.ordinal() {
            status
        } else {
            Some(reason)
        },
        None => Some(reason),
    }
}

/// When to display test output in the reporter.
#[derive(Copy, Clone, Debug, PartialEq, Eq, Structural)]
pub enum TestOutputDisplay {
    /// Show output immediately on execution completion.
    ///
    /// This is the default for failing tests.
    Immediate,
    /// Show output immediately, and at the end of a test run.
    ImmediateFinal,
    /// Show output at the end of execution.
    Final,
    /// Never show output.
    Never,
}

impl TestOutputDisplay {
    /// True if test output is shown immediately.
    pub open spec fn shows_immediately(self) -> bool {
        self is Immediate || self is ImmediateFinal
    }

    /// True if test output is shown at the end of the run.
    pub open spec fn shows_finally(self) -> bool {
        self is Final || self is ImmediateFinal
    }

    /// Returns true if test output is shown immediately.
    pub fn is_immediate(self) -> (r: bool)
        ensures
            r == self.shows_immediately(),
    {
        match self {
            TestOutputDisplay::Immediate | TestOutputDisplay::ImmediateFinal => true,
            TestOutputDisplay::Final | TestOutputDisplay::Never => false,
        }
    }

    /// Returns true if test output is shown at the end of the run.
    pub fn is_final(self) -> (r: bool)
        ensures
            r == self.shows_finally(),
    {
        match self {
            TestOutputDisplay::Final | TestOutputDisplay::ImmediateFinal => true,
            TestOutputDisplay::Immediate | TestOutputDisplay::Never => false,
        }
    }

    /// Returns true if test output is never shown.
    pub fn is_never(self) -> (r: bool)
        ensures
            r == (self is Never),
            r == (!self.shows_immediately() && !self.shows_finally()),
    {
        match self {
            TestOutputDisplay::Never => true,
            TestOutputDisplay::Immediate
            | TestOutputDisplay::ImmediateFinal
            | TestOutputDisplay::Final => false,
        }
    }
}

/// State about whether output is forced via command line options.
///
/// This is logically part of the reporter, but in reality is tracked by the runner.
#[derive(Debug)]
pub struct ForceOutput {
    /// Whether success output is forced.
    pub success: Option<TestOutputDisplay>,
    /// Whether failure output is forced.
    pub failure: Option<TestOutputDisplay>,
}

impl Default for ForceOutput {
    /// Nothing is forced.
    fn default() -> (r: ForceOutput)
        ensures
            r == (ForceOutput { success: None, failure: None }),
    {
        ForceOutput { success: None, failure: None }
    }
}

impl ForceOutput {
    /// What holds without capture: no output is shown.
    pub open spec fn uncaptured() -> ForceOutput {
        ForceOutput {
            success: Some(TestOutputDisplay::Never),
            failure: Some(TestOutputDisplay::Never),
        }
    }

    /// Sets a value for forced success output.
    pub fn set_success(&mut self, success: TestOutputDisplay)
        ensures
            *final(self) == (ForceOutput { success: Some(success), ..*old(self) }),
    {
        self.success = Some(success);
    }

    /// Sets a value for forced failure output.
    pub fn set_failure(&mut self, failure: TestOutputDisplay)
        ensures
            *final(self) == (ForceOutput { failure: Some(failure), ..*old(self) }),
    {
        self.failure = Some(failure);
    }

    /// Sets values assuming no capture.
    pub fn set_no_capture(&mut self)
        ensures
            *final(self) == ForceOutput::uncaptured(),
    {
        self.success = Some(TestOutputDisplay::Never);
        self.failure = Some(TestOutputDisplay::Never);
    }
}

} // verus!
