//! Prints out and aggregates test execution statuses.
//!
//! A [`TestReporterBuilder`] makes a [`TestReporter`], which takes in the [`TestEvent`]s of a run one
//! by one. For each it writes to a buffer, or hands back, what a terminal is to show, and it keeps
//! what is to be shown at the end of the run.

pub mod ansi;
pub mod bar_laws;
pub mod builder;
pub mod event;
pub mod event_laws;
pub mod final_output;
pub mod laws;
pub mod levels;
pub mod lines;
pub mod list;
pub mod progress;
pub mod report;
pub mod runner;
pub mod shell;
pub mod style;
pub mod summary;
pub mod text;
pub mod text_laws;

pub use builder::{
    EventReport, NextestProfile, ReporterStderr, ReporterStderrImpl, TestReporter,
    TestReporterBuilder,
};
pub use event::{ScriptId, TestEvent, TestEventKind};
pub use final_output::FinalOutput;
pub use levels::{CancelReason, FinalStatusLevel, ForceOutput, StatusLevel, TestOutputDisplay};
pub use lines::TestReporterImpl;
pub use list::{MismatchReason, RustTestSuite, TestInstance, TestList};
pub use progress::{ProgressBarSetup, ProgressBarUpdate, RunningState};
pub use runner::{
    AbortStatus, ExecuteStatus, ExecutionDescription, ExecutionResult, ExecutionStatuses, RetryData,
    RunStats, SetupScriptExecuteStatus, TimeSpan,
};
pub use style::{ListStyles, Style, Styles};
