//! Reporters, and how they are built.

use crate::event::{TestEvent, TestEventKind};
use crate::final_output::Entry;
use crate::levels::{FinalStatusLevel, StatusLevel};
use crate::lines::TestReporterImpl;
use crate::list::{RustTestSuite, TestList};
use crate::progress;
use crate::progress::{ProgressBarSetup, ProgressBarUpdate};
use crate::report;
use crate::style::Styles;
use vstd::prelude::*;
use vstd::string::*;
use vstd::utf8::*;

verus! {

/// Calls `is_ci::uncached`, which guesses from the environment variables whether this process runs
/// in a CI service. The result depends on the environment, so nothing is stated of it.
#[verifier::external_body]
fn runs_in_ci() -> bool {
    is_ci::uncached()
}

/// The settings of a profile that a reporter falls back to.
#[derive(Copy, Clone, Debug, PartialEq, Eq, Structural)]
pub struct NextestProfile {
    /// The kinds of statuses to output.
    pub status_level: StatusLevel,
    /// The kinds of statuses to output at the end of the run.
    pub final_status_level: FinalStatusLevel,
}

/// Standard error destination for the reporter.
///
/// This is usually a terminal, but can be an in-memory buffer for tests.
pub enum ReporterStderr<'a> {
    /// Produce output on the (possibly piped) terminal.
    ///
    /// If the terminal isn't piped, produce output to a progress bar.
    Terminal,
    /// Write output to a buffer.
    Buffer(&'a mut Vec<u8>),
}

/// Where the output of a reporter goes.
pub enum ReporterStderrImpl<'a> {
    /// To the terminal, around a progress bar.
    TerminalWithBar(ProgressBarSetup),
    /// To the terminal.
    TerminalWithoutBar,
    /// To a buffer.
    Buffer(&'a mut Vec<u8>),
}

/// Test reporter builder.
#[derive(Debug)]
pub struct TestReporterBuilder {
    /// Whether tests write to the terminal themselves.
    pub no_capture: bool,
    /// The kinds of statuses to output, if they are set.
    pub status_level: Option<StatusLevel>,
    /// The kinds of statuses to output at the end of the run, if they are set.
    pub final_status_level: Option<FinalStatusLevel>,
    /// Whether output is verbose.
    pub verbose: bool,
    /// Whether the progress bar is hidden.
    pub hide_progress_bar: bool,
}

impl Default for TestReporterBuilder {
    /// Nothing is set.
    fn default() -> (r: TestReporterBuilder)
        ensures
            r == (TestReporterBuilder {
                no_capture: false,
                status_level: None,
                final_status_level: None,
                verbose: false,
                hide_progress_bar: false,
            }),
    {
        TestReporterBuilder {
            no_capture: false,
            status_level: None,
            final_status_level: None,
            verbose: false,
            hide_progress_bar: false,
        }
    }
}

/// True if a column of the given width is just wide enough for the IDs of all binaries with tests.
pub open spec fn fits_binary_ids(suites: Seq<RustTestSuite>, width: usize) -> bool {
    &&& forall|i: int|
        0 <= i < suites.len() && (#[trigger] suites[i]).test_count > 0 ==> id_len(suites[i]) <= width
    &&& width == 0 || exists|i: int|
        0 <= i < suites.len() && (#[trigger] suites[i]).test_count > 0 && id_len(suites[i]) == width
}

/// The length of a binary ID, in bytes.
pub open spec fn id_len(suite: RustTestSuite) -> nat {
    encode_utf8(suite.binary_id@).len()
}

/// Returns the width of a column for the IDs of all binaries with tests.
fn binary_id_width(suites: &Vec<RustTestSuite>) -> (r: usize)
    ensures
        fits_binary_ids(suites@, r),
{
    let mut width: usize = 0;
    let mut i: usize = 0;
    while i < suites.len()
        invariant
            i <= suites@.len(),
            fits_binary_ids(suites@.take(i as int), width),
        decreases suites@.len() - i,
    {
        let ghost before = suites@.take(i as int);
        let ghost after = suites@.take(i + 1);
        let ghost old_width = width;
        assert(after =~= before.push(suites@[i as int]));
        assert forall|j: int| 0 <= j < before.len() implies after[j] == before[j] by {}
        if suites[i].test_count > 0 {
            let len = suites[i].binary_id.as_str().as_bytes().len();
            if len > width {
                width = len;
            }
        }
        proof {
            assert(after[i as int] == suites@[i as int]);
            if width == old_width && width > 0 {
                let k = choose|k: int|
                    0 <= k < before.len() && (#[trigger] before[k]).test_count > 0 && id_len(before[k])
                        == width;
                assert(after[k].test_count > 0 && id_len(after[k]) == width);
            }
        }
        i = i + 1;
    }
    assert(suites@.take(i as int) =~= suites@);
    width
}

impl TestReporterBuilder {
    /// Sets no-capture mode.
    ///
    /// In this mode, `status_level` will be at least [`StatusLevel::Pass`]. The settings for
    /// `failure_output` and `success_output` are ignored by the runner: the ones that come with its
    /// events are those of
    /// [`ForceOutput::set_no_capture`](crate::levels::ForceOutput::set_no_capture), with which no
    /// test output is shown.
    pub fn set_no_capture(&mut self, no_capture: bool) -> (r: &mut Self)
        ensures
            *r == (TestReporterBuilder { no_capture, ..*old(self) }),
            *final(self) == *final(r),
    {
        self.no_capture = no_capture;
        self
    }

    /// Sets the kinds of statuses to output.
    pub fn set_status_level(&mut self, status_level: StatusLevel) -> (r: &mut Self)
        ensures
            *r == (TestReporterBuilder { status_level: Some(status_level), ..*old(self) }),
            *final(self) == *final(r),
    {
        self.status_level = Some(status_level);
        self
    }

    /// Sets the kinds of statuses to output at the end of the run.
    pub fn set_final_status_level(&mut self, final_status_level: FinalStatusLevel) -> (r: &mut Self)
        ensures
            *r == (TestReporterBuilder {
                final_status_level: Some(final_status_level),
                ..*old(self)
            }),
            *final(self) == *final(r),
    {
        self.final_status_level = Some(final_status_level);
        self
    }

    /// Sets verbose output.
    pub fn set_verbose(&mut self, verbose: bool) -> (r: &mut Self)
        ensures
            *r == (TestReporterBuilder { verbose, ..*old(self) }),
            *final(self) == *final(r),
    {
        self.verbose = verbose;
        self
    }

    /// Sets visibility of the progress bar.
    /// The progress bar is also hidden if `no_capture` is set.
    pub fn set_hide_progress_bar(&mut self, hide_progress_bar: bool) -> (r: &mut Self)
        ensures
            *r == (TestReporterBuilder { hide_progress_bar, ..*old(self) }),
            *final(self) == *final(r),
    {
        self.hide_progress_bar = hide_progress_bar;
        self
    }

    /// The kinds of statuses that a reporter outputs: the ones that were set or, failing that, those
    /// of the profile. In no-capture mode, the status level is treated as at least pass.
    pub open spec fn effective_status_level(self, profile: NextestProfile) -> StatusLevel {
        let level = match self.status_level {
            Some(level) => level,
            None => profile.status_level,
        };
        if self.no_capture {
            level.higher(StatusLevel::Pass)
        } else {
            level
        }
    }

    /// The kinds of statuses that a reporter outputs at the end of the run: the ones that were set
    /// or, failing that, those of the profile.
    pub open spec fn effective_final_status_level(
        self,
        profile: NextestProfile,
    ) -> FinalStatusLevel {
        match self.final_status_level {
            Some(level) => level,
            None => profile.final_status_level,
        }
    }

    /// True if this is the state that a new reporter starts in.
    pub open spec fn starts_as(
        self,
        test_list: TestList,
        profile: NextestProfile,
        inner: TestReporterImpl,
    ) -> bool {
        &&& inner.status_level == self.effective_status_level(profile)
        &&& inner.final_status_level == self.effective_final_status_level(profile)
        &&& inner.no_capture == self.no_capture
        &&& fits_binary_ids(test_list.suites@, inner.binary_id_width)
        &&& inner.styles == Styles::plain()
        &&& inner.cancel_status is None
        &&& inner.final_outputs@ == Seq::<Entry>::empty()
    }

    /// True if a reporter on a terminal goes without a progress bar.
    pub open spec fn goes_without_bar(self, in_ci: bool) -> bool {
        self.no_capture || in_ci || self.hide_progress_bar
    }

    /// True if this is where the output of a new reporter goes.
    pub open spec fn writes_to(
        self,
        test_list: TestList,
        output: ReporterStderr,
        in_ci: bool,
        stderr: ReporterStderrImpl,
    ) -> bool {
        match (output, stderr) {
            (ReporterStderr::Terminal, ReporterStderrImpl::TerminalWithBar(setup)) => {
                !self.goes_without_bar(in_ci) && setup.is_for(test_list.test_count)
            },
            (ReporterStderr::Terminal, ReporterStderrImpl::TerminalWithoutBar) => {
                self.goes_without_bar(in_ci)
            },
            (ReporterStderr::Buffer(given), ReporterStderrImpl::Buffer(kept)) => {
                *kept == *given
            },
            _ => false,
        }
    }

    /// Creates a new test reporter.
    pub fn build<'a>(
        &self,
        test_list: &TestList,
        profile: &NextestProfile,
        output: ReporterStderr<'a>,
    ) -> (r: TestReporter<'a>)
        ensures
            self.starts_as(*test_list, *profile, r.inner),
            self.writes_to(*test_list, output, true, r.stderr) || self.writes_to(
                *test_list,
                output,
                false,
                r.stderr,
            ),
            // What is written to the buffer of the reporter ends up in the given one.
            (output matches ReporterStderr::Buffer(given) ==> (
            r.stderr matches ReporterStderrImpl::Buffer(kept) ==> *final(kept) == *final(given))),
    {
        let in_ci = match output {
            ReporterStderr::Terminal => !self.no_capture && runs_in_ci(),
            ReporterStderr::Buffer(_) => false,
        };
        self.build_for(test_list, profile, output, in_ci)
    }

    /// Creates a new test reporter, given whether this process runs in a CI service.
    pub fn build_for<'a>(
        &self,
        test_list: &TestList,
        profile: &NextestProfile,
        output: ReporterStderr<'a>,
        in_ci: bool,
    ) -> (r: TestReporter<'a>)
        ensures
            self.starts_as(*test_list, *profile, r.inner),
            self.writes_to(*test_list, output, in_ci, r.stderr),
            // What is written to the buffer of the reporter ends up in the given one.
            (output matches ReporterStderr::Buffer(given) ==> (
            r.stderr matches ReporterStderrImpl::Buffer(kept) ==> *final(kept) == *final(given))),
    {
        let binary_id_width = binary_id_width(&test_list.suites);
        let status_level = match self.status_level {
            Some(status_level) => status_level,
            None => profile.status_level,
        };
        let status_level = if self.no_capture {
            // In no-capture mode, the status level is treated as at least pass.
            status_level.raised_to(StatusLevel::Pass)
        } else {
            status_level
        };
        let final_status_level = match self.final_status_level {
            Some(final_status_level) => final_status_level,
            None => profile.final_status_level,
        };
        let stderr = match output {
            ReporterStderr::Terminal => {
                // Do not use a progress bar if --no-capture is passed in. This is required since we
                // pass down stderr to the child process.
                //
                // Some CI environments appear to pretend to be a terminal. Disable the progress bar
                // in these environments.
                if self.no_capture || in_ci || self.hide_progress_bar {
                    ReporterStderrImpl::TerminalWithoutBar
                } else {
                    ReporterStderrImpl::TerminalWithBar(ProgressBarSetup::new(test_list.test_count))
                }
            },
            ReporterStderr::Buffer(buf) => ReporterStderrImpl::Buffer(buf),
        };
        TestReporter {
            inner: TestReporterImpl {
                status_level,
                final_status_level,
                no_capture: self.no_capture,
                binary_id_width,
                styles: Styles::default(),
                cancel_status: None,
                final_outputs: Vec::new(),
            },
            stderr,
        }
    }
}

/// Functionality to report test results to stderr.
pub struct TestReporter<'a> {
    /// The state of the reporter.
    pub inner: TestReporterImpl<'a>,
    /// Where the output goes.
    pub stderr: ReporterStderrImpl<'a>,
}

/// What is left to do for an event once a reporter has taken it in.
#[derive(Debug)]
pub enum EventReport {
    /// The output is to be written to standard error with the progress bar out of the way, and then
    /// the bar is to be updated.
    AroundBar {
        /// The output.
        output: Vec<u8>,
        /// What changes about the bar.
        update: ProgressBarUpdate,
    },
    /// The output is to be written to standard error.
    ToStderr {
        /// The output.
        output: Vec<u8>,
    },
    /// The output was written to the buffer.
    ToBuffer,
}

/// True if the output of an event went where it belongs: to the buffer or into the report, and with
/// a progress bar also what changes about the bar.
pub open spec fn is_reported(
    before: TestReporter,
    kind: TestEventKind,
    after: TestReporter,
    report: EventReport,
) -> bool {
    let written = report::event_output(before.inner, kind, after.inner.final_outputs@);
    match (before.stderr, after.stderr, report) {
        (
            ReporterStderrImpl::TerminalWithBar(s0),
            ReporterStderrImpl::TerminalWithBar(s1),
            EventReport::AroundBar { output, update },
        ) => s1 == s0 && output@ == written && update.is_for(kind, before.inner.styles),
        (
            ReporterStderrImpl::TerminalWithoutBar,
            ReporterStderrImpl::TerminalWithoutBar,
            EventReport::ToStderr { output },
        ) => output@ == written,
        (
            ReporterStderrImpl::Buffer(b0),
            ReporterStderrImpl::Buffer(b1),
            EventReport::ToBuffer,
        ) => (*b1)@ == (*b0)@ + written,
        _ => false,
    }
}

impl<'a> TestReporter<'a> {
    /// Colorizes output.
    pub fn colorize(&mut self)
        ensures
            final(self).inner == (TestReporterImpl { styles: Styles::colored(), ..old(self).inner }),
            final(self).stderr == old(self).stderr,
    {
        self.inner.styles.colorize();
    }

    /// Report a test event.
    ///
    /// What has to be written to the terminal is returned.
    pub fn report_event(&mut self, event: &TestEvent<'a>) -> (r: EventReport)
        requires
            report::accepts_event(old(self).inner, event.kind),
        ensures
            report::event_effect(old(self).inner, event.kind, final(self).inner),
            is_reported(*old(self), event.kind, *final(self), r),
            // It is still the same buffer.
            (old(self).stderr matches ReporterStderrImpl::Buffer(b0) ==> (
            final(self).stderr matches ReporterStderrImpl::Buffer(b1) ==> *final(b1) == *final(b0))),
    {
        self.write_event(event)
    }

    /// Report this test event to the destination of this reporter.
    fn write_event(&mut self, event: &TestEvent<'a>) -> (r: EventReport)
        requires
            report::accepts_event(old(self).inner, event.kind),
        ensures
            report::event_effect(old(self).inner, event.kind, final(self).inner),
            is_reported(*old(self), event.kind, *final(self), r),
            // It is still the same buffer.
            (old(self).stderr matches ReporterStderrImpl::Buffer(b0) ==> (
            final(self).stderr matches ReporterStderrImpl::Buffer(b1) ==> *final(b1) == *final(b0))),
    {
        match &mut self.stderr {
            ReporterStderrImpl::TerminalWithBar(_) => {
                let mut output: Vec<u8> = Vec::new();
                self.inner.write_event_impl(event, &mut output);
                let update = progress::update_progress_bar(event, &self.inner.styles);
                assert(output@ =~= report::event_output(
                    old(self).inner,
                    event.kind,
                    self.inner.final_outputs@,
                ));
                EventReport::AroundBar { output, update }
            },
            ReporterStderrImpl::TerminalWithoutBar => {
                let mut output: Vec<u8> = Vec::new();
                self.inner.write_event_impl(event, &mut output);
                assert(output@ =~= report::event_output(
                    old(self).inner,
                    event.kind,
                    self.inner.final_outputs@,
                ));
                EventReport::ToStderr { output }
            },
            ReporterStderrImpl::Buffer(buf) => {
                self.inner.write_event_impl(event, buf);
                EventReport::ToBuffer
            },
        }
    }
}

} // verus!
