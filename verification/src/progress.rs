//! The progress bar.

use crate::event::{TestEvent, TestEventKind};
use crate::levels::CancelReason;
use crate::runner::RunStats;
use crate::style::Styles;
use crate::summary;
use crate::text;
use vstd::prelude::*;
use vstd::string::*;

verus! {

/// How a progress bar is set up.
#[derive(Debug)]
pub struct ProgressBarSetup {
    /// The number of tests.
    pub length: u64,
    /// The template that the bar is drawn by.
    pub template: String,
    /// The characters of the bar: the part that is done, its head, and the rest.
    pub progress_chars: &'static str,
    /// How often the bar is drawn at most, per second.
    pub refresh_hz: u8,
    /// The time between two ticks, in milliseconds.
    pub tick_millis: u64,
}

/// The template for a bar whose numbers go up to `test_count`.
pub open spec fn template_text(test_count: usize) -> Seq<char> {
    let width = text::decimal(text::decimal(test_count as nat).len());
    "{prefix:>12} [{elapsed_precise:>9}] [{wide_bar}] {pos:>"@ + width + "}/{len:"@ + width
        + "}: {msg}     "@
}

impl ProgressBarSetup {
    /// True if this is the setup for a run of `test_count` tests.
    pub open spec fn is_for(self, test_count: usize) -> bool {
        &&& self.length == test_count
        &&& self.template@ == template_text(test_count)
        &&& self.progress_chars@ == "=> "@
        &&& self.refresh_hz == 20
        &&& self.tick_millis == 100
    }

    /// The setup for a run of `test_count` tests.
    pub fn new(test_count: usize) -> (r: ProgressBarSetup)
        ensures
            r.is_for(test_count),
    {
        let digits = text::decimal_string(test_count as u64);
        let width = text::decimal_string(digits.as_str().unicode_len() as u64);
        let mut template = "{prefix:>12} [{elapsed_precise:>9}] [{wide_bar}] {pos:>".to_owned();
        template.append(width.as_str());
        template.append("}/{len:");
        template.append(width.as_str());
        template.append("}: {msg}     ");
        // The refresh rate is double the steady tick rate.
        ProgressBarSetup {
            length: test_count as u64,
            template,
            progress_chars: "=> ",
            refresh_hz: 20,
            tick_millis: 100,
        }
    }
}

/// Whether a run is going on or being canceled.
#[derive(Copy, Clone, Debug)]
pub enum RunningState<'a> {
    /// The run is going on.
    Running(&'a RunStats),
    /// The run is being canceled.
    Canceling(CancelReason),
}

impl<'a> RunningState<'a> {
    /// The state for a cancel status.
    pub open spec fn of(cancel_state: Option<CancelReason>, current_stats: &'a RunStats) -> Self {
        match cancel_state {
            Some(reason) => RunningState::Canceling(reason),
            None => RunningState::Running(current_stats),
        }
    }

    /// Returns the state for a cancel status.
    pub fn new(cancel_state: Option<CancelReason>, current_stats: &'a RunStats) -> (r: Self)
        ensures
            r == Self::of(cancel_state, current_stats),
    {
        match cancel_state {
            Some(cancel_state) => RunningState::Canceling(cancel_state),
            None => RunningState::Running(current_stats),
        }
    }

    /// The text in front of the bar.
    pub open spec fn prefix_text(self, styles: Styles) -> Seq<char> {
        match self {
            RunningState::Running(current_stats) => {
                let style = if current_stats.has_failure {
                    styles.fail
                } else {
                    styles.pass
                };
                style.painted(text::pad_left("Running"@, 12))
            },
            RunningState::Canceling(_) => styles.fail.painted(text::pad_left("Canceling"@, 12)),
        }
    }

    /// Renders the text in front of the bar.
    pub fn progress_bar_prefix(self, styles: &Styles) -> (r: String)
        ensures
            r@ == self.prefix_text(*styles),
    {
        let (prefix_str, prefix_style) = match self {
            RunningState::Running(current_stats) => {
                let prefix_style = if current_stats.has_failure {
                    styles.fail
                } else {
                    styles.pass
                };
                ("Running", prefix_style)
            },
            RunningState::Canceling(_) => ("Canceling", styles.fail),
        };
        let padded = text::right_aligned(prefix_str, 12);
        prefix_style.paint(padded.as_str())
    }
}

/// The text behind the bar.
pub open spec fn message_text(current_stats: RunStats, running: usize, styles: Styles) -> Seq<char> {
    summary::styled_number(styles.count, running) + " running, "@ + summary::summary_text(
        current_stats,
        styles,
    )
}

/// Renders the text behind the bar.
pub fn progress_bar_msg(current_stats: &RunStats, running: usize, styles: &Styles) -> (r: String)
    ensures
        r@ == message_text(*current_stats, running, *styles),
{
    let mut s = summary::styled_number_string(styles.count, running);
    s.append(" running, ");
    summary::write_summary_str(current_stats, styles, &mut s);
    s
}

/// What an event changes about the progress bar.
#[derive(Debug)]
pub enum ProgressBarUpdate {
    /// Nothing.
    Unchanged,
    /// The bar disappears.
    Hide,
    /// The bar is drawn to standard error again.
    Show,
    /// The bar moves, and the texts around it change.
    Advance {
        /// The text in front of the bar.
        prefix: String,
        /// The text behind the bar.
        message: String,
        /// The number of tests that are run in all.
        length: u64,
        /// The number of tests that are done.
        position: u64,
    },
    /// The text in front of the bar changes.
    SetPrefix(String),
}

impl ProgressBarUpdate {
    /// True if the bar moves and the texts around it change as the given counts ask for.
    pub open spec fn advances_to(
        self,
        stats: RunStats,
        running: usize,
        cancel_state: Option<CancelReason>,
        styles: Styles,
    ) -> bool {
        self matches ProgressBarUpdate::Advance { prefix, message, length, position } && {
            &&& prefix@ == RunningState::of(cancel_state, &stats).prefix_text(styles)
            &&& message@ == message_text(stats, running, styles)
            &&& length == stats.initial_run_count
            &&& position == stats.finished_count
        }
    }

    /// True if this is what an event changes about the bar.
    pub open spec fn is_for(self, kind: TestEventKind, styles: Styles) -> bool {
        match kind {
            // The bar is hidden while either stderr or stdout are being passed through.
            TestEventKind::SetupScriptStarted { no_capture: true, .. } => self is Hide,
            TestEventKind::SetupScriptFinished { no_capture: true, .. } => self is Show,
            TestEventKind::TestStarted { current_stats, running, cancel_state, .. } => {
                self.advances_to(current_stats, running, cancel_state, styles)
            },
            TestEventKind::TestFinished { current_stats, running, cancel_state, .. } => {
                self.advances_to(current_stats, running, cancel_state, styles)
            },
            TestEventKind::RunBeginCancel { reason, .. } => {
                self matches ProgressBarUpdate::SetPrefix(prefix) && prefix@
                    == RunningState::Canceling(reason).prefix_text(styles)
            },
            _ => self is Unchanged,
        }
    }
}

/// Moves the bar and changes the texts around it.
fn advance_progress_bar(
    current_stats: &RunStats,
    running: usize,
    cancel_state: Option<CancelReason>,
    styles: &Styles,
) -> (r: ProgressBarUpdate)
    ensures
        r.advances_to(*current_stats, running, cancel_state, *styles),
{
    let running_state = RunningState::new(cancel_state, current_stats);
    let prefix = running_state.progress_bar_prefix(styles);
    let message = progress_bar_msg(current_stats, running, styles);
    // If there are skipped tests, the initial run count will be lower than the length that the bar
    // was set up with.
    ProgressBarUpdate::Advance {
        prefix,
        message,
        length: current_stats.initial_run_count as u64,
        position: current_stats.finished_count as u64,
    }
}

/// Returns what an event changes about the progress bar.
pub fn update_progress_bar(event: &TestEvent<'_>, styles: &Styles) -> (r: ProgressBarUpdate)
    ensures
        r.is_for(event.kind, *styles),
{
    match &event.kind {
        TestEventKind::SetupScriptStarted { no_capture, .. } => {
            // Hide the progress bar if either stderr or stdout are being passed through.
            if *no_capture {
                ProgressBarUpdate::Hide
            } else {
                ProgressBarUpdate::Unchanged
            }
        },
        TestEventKind::SetupScriptFinished { no_capture, .. } => {
            // Restore the progress bar if it was hidden.
            if *no_capture {
                ProgressBarUpdate::Show
            } else {
                ProgressBarUpdate::Unchanged
            }
        },
        TestEventKind::TestStarted { current_stats, running, cancel_state, .. } => {
            advance_progress_bar(current_stats, *running, *cancel_state, styles)
        },
        TestEventKind::TestFinished { current_stats, running, cancel_state, .. } => {
            advance_progress_bar(current_stats, *running, *cancel_state, styles)
        },
        TestEventKind::RunBeginCancel { reason, .. } => {
            let running_state = RunningState::Canceling(*reason);
            ProgressBarUpdate::SetPrefix(running_state.progress_bar_prefix(styles))
        },
        _ => ProgressBarUpdate::Unchanged,
    }
}

} // verus!
