//! What holds of summaries, of the progress bar, and of reporters as they are built.

use crate::builder;
use crate::builder::{
    EventReport, NextestProfile, ReporterStderr, ReporterStderrImpl, TestReporter,
    TestReporterBuilder,
};
use crate::event::TestEventKind;
use crate::event_laws;
use crate::levels::StatusLevel;
use crate::lines::TestReporterImpl;
use crate::list::TestList;
use crate::progress::{ProgressBarSetup, ProgressBarUpdate};
use crate::report;
use crate::runner::RunStats;
use crate::style::{Style, Styles};
use crate::summary;
use crate::text;
use vstd::prelude::*;

verus! {

/// A count and its word, as they are shown.
pub open spec fn mention(styles: Styles, n: usize, style: Style, s: Seq<char>) -> Seq<char> {
    styles.count.painted(text::decimal(n as nat)) + " "@ + style.painted(s)
}

/// The part of a summary on one kind of failure.
pub open spec fn failures(styles: Styles, n: usize, s: Seq<char>) -> Seq<char> {
    if n == 0 {
        seq![]
    } else {
        mention(styles, n, styles.fail, s) + ", "@
    }
}

/// What comes first in a summary: the number of tests that passed, and what is to be said of them.
pub open spec fn summary_front(stats: RunStats, styles: Styles) -> Seq<char> {
    let slow = mention(styles, stats.passed_slow, styles.skip, "slow"@);
    let flaky = mention(styles, stats.flaky, styles.skip, "flaky"@);
    let leaky = mention(styles, stats.leaky, styles.skip, "leaky"@);
    let remarks = match (stats.passed_slow > 0, stats.flaky > 0, stats.leaky > 0) {
        (false, false, false) => seq![],
        (true, false, false) => " ("@ + slow + ")"@,
        (false, true, false) => " ("@ + flaky + ")"@,
        (false, false, true) => " ("@ + leaky + ")"@,
        (true, true, false) => " ("@ + (slow + ", "@ + flaky) + ")"@,
        (true, false, true) => " ("@ + (slow + ", "@ + leaky) + ")"@,
        (false, true, true) => " ("@ + (flaky + ", "@ + leaky) + ")"@,
        (true, true, true) => " ("@ + (slow + ", "@ + flaky + ", "@ + leaky) + ")"@,
    };
    mention(styles, stats.passed, styles.pass, "passed"@) + remarks + ", "@
}

/// The text of one to three parts with commas between them.
proof fn lemma_joined(a: Seq<char>, b: Seq<char>, c: Seq<char>)
    ensures
        text::joined(seq![a], ", "@) == a,
        text::joined(seq![a, b], ", "@) == a + ", "@ + b,
        text::joined(seq![a, b, c], ", "@) == a + ", "@ + b + ", "@ + c,
{
    reveal_with_fuel(text::joined, 3);
    assert(seq![a, b].drop_last() =~= seq![a]);
    assert(seq![a, b, c].drop_last() =~= seq![a, b]);
}

/// What comes first in a summary.
proof fn lemma_summary_front(stats: RunStats, styles: Styles)
    ensures
        summary::counted(styles, stats.passed, styles.pass, "passed"@) + summary::pass_remarks_text(
            stats,
            styles,
        ) + ", "@ == summary_front(stats, styles),
{
    let slow = mention(styles, stats.passed_slow, styles.skip, "slow"@);
    let flaky = mention(styles, stats.flaky, styles.skip, "flaky"@);
    let leaky = mention(styles, stats.leaky, styles.skip, "leaky"@);
    let remarks = summary::pass_remarks(stats, styles);
    reveal_strlit("");
    assert(""@ =~= Seq::<char>::empty());
    lemma_joined(slow, flaky, leaky);
    lemma_joined(slow, leaky, leaky);
    lemma_joined(flaky, leaky, leaky);
    lemma_joined(leaky, leaky, leaky);
    match (stats.passed_slow > 0, stats.flaky > 0, stats.leaky > 0) {
        (false, false, false) => {
            assert(remarks =~= Seq::<Seq<char>>::empty());
        },
        (true, false, false) => {
            assert(remarks =~= seq![slow]);
        },
        (false, true, false) => {
            assert(remarks =~= seq![flaky]);
        },
        (false, false, true) => {
            assert(remarks =~= seq![leaky]);
        },
        (true, true, false) => {
            assert(remarks =~= seq![slow, flaky]);
        },
        (true, false, true) => {
            assert(remarks =~= seq![slow, leaky]);
        },
        (false, true, true) => {
            assert(remarks =~= seq![flaky, leaky]);
        },
        (true, true, true) => {
            assert(remarks =~= seq![slow, flaky, leaky]);
        },
    }
}

/// A summary is made of these parts, in this order: what passed, each kind of failure on its own, and
/// what was skipped.
pub proof fn law_parts_of_a_summary(stats: RunStats, styles: Styles)
    ensures
        summary::summary_text(stats, styles) == summary_front(stats, styles) + failures(
            styles,
            stats.failed,
            "failed"@,
        ) + failures(styles, stats.exec_failed, "exec failed"@) + failures(
            styles,
            stats.timed_out,
            "timed out"@,
        ) + mention(styles, stats.skipped, styles.skip, "skipped"@),
{
    lemma_summary_front(stats, styles);
    reveal_strlit("");
    assert(""@ =~= Seq::<char>::empty());
}

/// Each count that is above zero is in the summary with its word, whatever the other counts are. The
/// numbers of tests that passed and that were skipped are always in it.
pub proof fn law_summaries_mention_every_count(stats: RunStats, styles: Styles)
    ensures
        ({
            let whole = summary::summary_text(stats, styles);
            &&& event_laws::occurs_in(
                mention(styles, stats.passed, styles.pass, "passed"@),
                whole,
            )
            &&& event_laws::occurs_in(
                mention(styles, stats.skipped, styles.skip, "skipped"@),
                whole,
            )
            &&& stats.failed > 0 ==> event_laws::occurs_in(
                mention(styles, stats.failed, styles.fail, "failed"@),
                whole,
            )
            &&& stats.exec_failed > 0 ==> event_laws::occurs_in(
                mention(styles, stats.exec_failed, styles.fail, "exec failed"@),
                whole,
            )
            &&& stats.timed_out > 0 ==> event_laws::occurs_in(
                mention(styles, stats.timed_out, styles.fail, "timed out"@),
                whole,
            )
            &&& stats.passed_slow > 0 ==> event_laws::occurs_in(
                mention(styles, stats.passed_slow, styles.skip, "slow"@),
                whole,
            )
            &&& stats.flaky > 0 ==> event_laws::occurs_in(
                mention(styles, stats.flaky, styles.skip, "flaky"@),
                whole,
            )
            &&& stats.leaky > 0 ==> event_laws::occurs_in(
                mention(styles, stats.leaky, styles.skip, "leaky"@),
                whole,
            )
        }),
{
    law_parts_of_a_summary(stats, styles);
    let whole = summary::summary_text(stats, styles);
    let front = summary_front(stats, styles);
    lemma_five_occur(
        front,
        failures(styles, stats.failed, "failed"@),
        failures(styles, stats.exec_failed, "exec failed"@),
        failures(styles, stats.timed_out, "timed out"@),
        mention(styles, stats.skipped, styles.skip, "skipped"@),
    );
    lemma_failures_occur(styles, stats.failed, "failed"@, whole);
    lemma_failures_occur(styles, stats.exec_failed, "exec failed"@, whole);
    lemma_failures_occur(styles, stats.timed_out, "timed out"@, whole);
    lemma_front_occurs(stats, styles);
    lemma_occurs_through(mention(styles, stats.passed, styles.pass, "passed"@), front, whole);
    lemma_occurs_through(mention(styles, stats.passed_slow, styles.skip, "slow"@), front, whole);
    lemma_occurs_through(mention(styles, stats.flaky, styles.skip, "flaky"@), front, whole);
    lemma_occurs_through(mention(styles, stats.leaky, styles.skip, "leaky"@), front, whole);
}

/// What occurs in a part of a text occurs in the text.
proof fn lemma_occurs_through(part: Seq<char>, middle: Seq<char>, whole: Seq<char>)
    ensures
        event_laws::occurs_in(part, middle) && event_laws::occurs_in(middle, whole)
            ==> event_laws::occurs_in(part, whole),
{
    if event_laws::occurs_in(part, middle) && event_laws::occurs_in(middle, whole) {
        let i = choose|i: int|
            0 <= i && i + part.len() <= middle.len() && #[trigger] middle.subrange(
                i,
                i + part.len(),
            ) == part;
        let j = choose|j: int|
            0 <= j && j + middle.len() <= whole.len() && #[trigger] whole.subrange(
                j,
                j + middle.len(),
            ) == middle;
        assert(whole.subrange(i + j, i + j + part.len()) =~= middle.subrange(i, i + part.len()));
    }
}

/// Each of five parts occurs in all of them together.
proof fn lemma_five_occur(
    a: Seq<char>,
    b: Seq<char>,
    c: Seq<char>,
    d: Seq<char>,
    e: Seq<char>,
)
    ensures
        event_laws::occurs_in(a, a + b + c + d + e),
        event_laws::occurs_in(b, a + b + c + d + e),
        event_laws::occurs_in(c, a + b + c + d + e),
        event_laws::occurs_in(d, a + b + c + d + e),
        event_laws::occurs_in(e, a + b + c + d + e),
{
    let whole = a + b + c + d + e;
    let none = Seq::<char>::empty();
    event_laws::lemma_occurs(none, a, b + c + d + e);
    assert(none + a + (b + c + d + e) =~= whole);
    event_laws::lemma_occurs(a, b, c + d + e);
    assert(a + b + (c + d + e) =~= whole);
    event_laws::lemma_occurs(a + b, c, d + e);
    assert(a + b + c + (d + e) =~= whole);
    event_laws::lemma_occurs(a + b + c, d, e);
    event_laws::lemma_occurs(a + b + c + d, e, none);
    assert(a + b + c + d + e + none =~= whole);
}

/// The count of a kind of failure occurs wherever the part on it does.
proof fn lemma_failures_occur(styles: Styles, n: usize, s: Seq<char>, whole: Seq<char>)
    requires
        event_laws::occurs_in(failures(styles, n, s), whole),
    ensures
        n > 0 ==> event_laws::occurs_in(mention(styles, n, styles.fail, s), whole),
{
    let part = mention(styles, n, styles.fail, s);
    let none = Seq::<char>::empty();
    event_laws::lemma_occurs(none, part, ", "@);
    assert(none + part + ", "@ =~= part + ", "@);
    lemma_occurs_through(part, part + ", "@, whole);
}

/// The number of tests that passed, and what is to be said of them, occurs in what comes first.
proof fn lemma_front_occurs(stats: RunStats, styles: Styles)
    ensures
        ({
            let front = summary_front(stats, styles);
            &&& event_laws::occurs_in(
                mention(styles, stats.passed, styles.pass, "passed"@),
                front,
            )
            &&& stats.passed_slow > 0 ==> event_laws::occurs_in(
                mention(styles, stats.passed_slow, styles.skip, "slow"@),
                front,
            )
            &&& stats.flaky > 0 ==> event_laws::occurs_in(
                mention(styles, stats.flaky, styles.skip, "flaky"@),
                front,
            )
            &&& stats.leaky > 0 ==> event_laws::occurs_in(
                mention(styles, stats.leaky, styles.skip, "leaky"@),
                front,
            )
        }),
{
    let passed = mention(styles, stats.passed, styles.pass, "passed"@);
    let slow = mention(styles, stats.passed_slow, styles.skip, "slow"@);
    let flaky = mention(styles, stats.flaky, styles.skip, "flaky"@);
    let leaky = mention(styles, stats.leaky, styles.skip, "leaky"@);
    let none = Seq::<char>::empty();
    match (stats.passed_slow > 0, stats.flaky > 0, stats.leaky > 0) {
        (false, false, false) => {
            event_laws::lemma_occurs(none, passed, none + ", "@);
            assert(none + passed + (none + ", "@) =~= passed + none + ", "@);
        },
        (true, false, false) => {
            lemma_listed(passed, slow, none, none);
        },
        (false, true, false) => {
            lemma_listed(passed, flaky, none, none);
        },
        (false, false, true) => {
            lemma_listed(passed, leaky, none, none);
        },
        (true, true, false) => {
            lemma_listed(passed, slow, flaky, none);
        },
        (true, false, true) => {
            lemma_listed(passed, slow, leaky, none);
        },
        (false, true, true) => {
            lemma_listed(passed, flaky, leaky, none);
        },
        (true, true, true) => {
            lemma_listed(passed, slow, flaky, leaky);
        },
    }
}

/// Each part of a list in parentheses, and what is in front of it, occurs in all of it.
proof fn lemma_listed(front: Seq<char>, a: Seq<char>, b: Seq<char>, c: Seq<char>)
    ensures
        ({
            let whole = front + (" ("@ + a + ")"@) + ", "@;
            event_laws::occurs_in(front, whole) && event_laws::occurs_in(a, whole)
        }),
        ({
            let whole = front + (" ("@ + (a + ", "@ + b) + ")"@) + ", "@;
            event_laws::occurs_in(front, whole) && event_laws::occurs_in(a, whole)
                && event_laws::occurs_in(b, whole)
        }),
        ({
            let whole = front + (" ("@ + (a + ", "@ + b + ", "@ + c) + ")"@) + ", "@;
            event_laws::occurs_in(front, whole) && event_laws::occurs_in(a, whole)
                && event_laws::occurs_in(b, whole) && event_laws::occurs_in(c, whole)
        }),
{
    let none = Seq::<char>::empty();
    lemma_in_parentheses(front, a);
    let two = a + ", "@ + b;
    lemma_in_parentheses(front, two);
    let of_two = front + (" ("@ + two + ")"@) + ", "@;
    event_laws::lemma_occurs(none, a, ", "@ + b);
    assert(none + a + (", "@ + b) =~= two);
    event_laws::lemma_occurs(a + ", "@, b, none);
    assert(a + ", "@ + b + none =~= two);
    lemma_occurs_through(a, two, of_two);
    lemma_occurs_through(b, two, of_two);
    let three = a + ", "@ + b + ", "@ + c;
    lemma_in_parentheses(front, three);
    let of_three = front + (" ("@ + three + ")"@) + ", "@;
    lemma_five_occur(a, ", "@, b, ", "@, c);
    lemma_occurs_through(a, three, of_three);
    lemma_occurs_through(b, three, of_three);
    lemma_occurs_through(c, three, of_three);
}

/// What is in parentheses, and what is in front of them, occurs in all of it.
proof fn lemma_in_parentheses(front: Seq<char>, inside: Seq<char>)
    ensures
        event_laws::occurs_in(front, front + (" ("@ + inside + ")"@) + ", "@),
        event_laws::occurs_in(inside, front + (" ("@ + inside + ")"@) + ", "@),
{
    let whole = front + (" ("@ + inside + ")"@) + ", "@;
    lemma_five_occur(front, " ("@, inside, ")"@, ", "@);
    assert(front + " ("@ + inside + ")"@ + ", "@ =~= whole);
}

/// True if two sets of counts are the same but for one kind of failure.
pub open spec fn differ_in_one_failure(a: RunStats, b: RunStats) -> bool {
    ||| b == (RunStats { failed: b.failed, ..a }) && a.failed == 0 && b.failed > 0
    ||| b == (RunStats { exec_failed: b.exec_failed, ..a }) && a.exec_failed == 0 && b.exec_failed
        > 0
    ||| b == (RunStats { timed_out: b.timed_out, ..a }) && a.timed_out == 0 && b.timed_out > 0
}

/// One more kind of failure makes a summary longer, and never takes anything out of it: what was
/// there is still there, in front of and behind what is new.
pub proof fn law_failures_are_added_to_summaries(a: RunStats, b: RunStats, styles: Styles)
    requires
        differ_in_one_failure(a, b),
    ensures
        exists|front: Seq<char>, part: Seq<char>, back: Seq<char>|
            summary::summary_text(a, styles) == front + back && #[trigger] (front + part + back)
                == summary::summary_text(b, styles) && part.len() > 2,
{
    law_parts_of_a_summary(a, styles);
    law_parts_of_a_summary(b, styles);
    let start = summary_front(a, styles);
    let failed = failures(styles, a.failed, "failed"@);
    let exec_failed = failures(styles, a.exec_failed, "exec failed"@);
    let timed_out = failures(styles, a.timed_out, "timed out"@);
    let skipped = mention(styles, a.skipped, styles.skip, "skipped"@);
    assert(summary_front(b, styles) == start);
    lemma_failures_are_long(styles, b.failed, "failed"@);
    lemma_failures_are_long(styles, b.exec_failed, "exec failed"@);
    lemma_failures_are_long(styles, b.timed_out, "timed out"@);
    if b.failed != a.failed {
        lemma_inserted(start, failures(styles, b.failed, "failed"@), exec_failed, timed_out, skipped);
    } else if b.exec_failed != a.exec_failed {
        let part = failures(styles, b.exec_failed, "exec failed"@);
        lemma_inserted(start + failed, part, timed_out, skipped, Seq::<char>::empty());
        lemma_without_end(start + failed + part + timed_out + skipped);
        lemma_without_end(start + failed + Seq::<char>::empty() + timed_out + skipped);
    } else {
        let part = failures(styles, b.timed_out, "timed out"@);
        let front = start + failed + exec_failed;
        let none = Seq::<char>::empty();
        lemma_inserted(front, part, skipped, none, none);
        lemma_without_end(front + part + skipped);
        lemma_without_end(front + none + skipped);
    }
}

/// The part on a kind of failure that occurred is longer than the comma and the space at its end.
proof fn lemma_failures_are_long(styles: Styles, n: usize, s: Seq<char>)
    ensures
        n > 0 ==> failures(styles, n, s).len() > 2,
{
    reveal_strlit(", ");
    reveal_strlit(" ");
}

/// Nothing at the end of a text changes nothing.
proof fn lemma_without_end(s: Seq<char>)
    ensures
        s + Seq::<char>::empty() == s,
        s + Seq::<char>::empty() + Seq::<char>::empty() == s,
{
    assert(s + Seq::<char>::empty() =~= s);
}

/// A part that is put where nothing was parts the text in two.
proof fn lemma_inserted(
    front: Seq<char>,
    part: Seq<char>,
    x: Seq<char>,
    y: Seq<char>,
    z: Seq<char>,
)
    requires
        part.len() > 2,
    ensures
        exists|f: Seq<char>, p: Seq<char>, b: Seq<char>|
            front + Seq::<char>::empty() + x + y + z == f + b && #[trigger] (f + p + b) == front
                + part + x + y + z && p.len() > 2,
{
    let back = x + y + z;
    assert(front + Seq::<char>::empty() + x + y + z =~= front + back);
    assert(front + part + back =~= front + part + x + y + z);
}

/// The counts of a run that are not in the summary do not change it.
pub proof fn law_summaries_depend_on_their_counts(a: RunStats, b: RunStats, styles: Styles)
    requires
        b == (RunStats {
            initial_run_count: b.initial_run_count,
            finished_count: b.finished_count,
            has_failure: b.has_failure,
            ..a
        }),
    ensures
        summary::summary_text(a, styles) == summary::summary_text(b, styles),
{
}

/// When a test starts and when one finishes, the bar moves to the number of tests that finished, out
/// of those that were expected to run. The text in front says whether the run is going on, in the
/// style of what passed or failed, or is being canceled. The one behind says how many tests are
/// running, and sums the counts up.
pub proof fn law_bar_follows_tests(update: ProgressBarUpdate, kind: TestEventKind, styles: Styles)
    requires
        update.is_for(kind, styles),
        kind is TestStarted || kind is TestFinished,
    ensures
        ({
            let (stats, running, cancel_state) = match kind {
                TestEventKind::TestStarted { current_stats, running, cancel_state, .. } => (
                    current_stats,
                    running,
                    cancel_state,
                ),
                TestEventKind::TestFinished { current_stats, running, cancel_state, .. } => (
                    current_stats,
                    running,
                    cancel_state,
                ),
                _ => arbitrary(),
            };
            update matches ProgressBarUpdate::Advance { prefix, message, length, position } && {
                &&& position == stats.finished_count
                &&& length == stats.initial_run_count
                &&& cancel_state is Some ==> prefix@ == styles.fail.painted(
                    text::pad_left("Canceling"@, 12),
                )
                &&& cancel_state is None && stats.has_failure ==> prefix@ == styles.fail.painted(
                    text::pad_left("Running"@, 12),
                )
                &&& cancel_state is None && !stats.has_failure ==> prefix@ == styles.pass.painted(
                    text::pad_left("Running"@, 12),
                )
                &&& message@ == styles.count.painted(text::decimal(running as nat)) + " running, "@
                    + summary::summary_text(stats, styles)
            }
        }),
{
}

/// The bar disappears while an uncaptured setup script is running, the text in front changes when the
/// run is canceled, and nothing else changes the bar.
pub proof fn law_bar_on_other_events(update: ProgressBarUpdate, kind: TestEventKind, styles: Styles)
    requires
        update.is_for(kind, styles),
    ensures
        kind matches TestEventKind::SetupScriptStarted { no_capture, .. } ==> if no_capture {
            update == ProgressBarUpdate::Hide
        } else {
            update == ProgressBarUpdate::Unchanged
        },
        kind matches TestEventKind::SetupScriptFinished { no_capture, .. } ==> if no_capture {
            update == ProgressBarUpdate::Show
        } else {
            update == ProgressBarUpdate::Unchanged
        },
        kind is RunBeginCancel ==> (update matches ProgressBarUpdate::SetPrefix(prefix) && prefix@
            == styles.fail.painted(text::pad_left("Canceling"@, 12))),
        kind is RunStarted || kind is SetupScriptSlow || kind is TestSlow
            || kind is TestAttemptFailedWillRetry || kind is TestRetryStarted
            || kind is TestSkipped || kind is RunPaused || kind is RunContinued
            || kind is RunFinished ==> update == ProgressBarUpdate::Unchanged,
{
}

/// A bar starts with the number of tests. Its numbers have as many columns as that number has digits.
pub proof fn law_bar_is_set_up_for_the_tests(setup: ProgressBarSetup, test_count: usize)
    requires
        setup.is_for(test_count),
    ensures
        setup.length == test_count,
        ({
            let width = text::decimal(text::decimal(test_count as nat).len());
            setup.template@ == "{prefix:>12} [{elapsed_precise:>9}] [{wide_bar}] {pos:>"@ + width
                + "}/{len:"@ + width + "}: {msg}     "@
        }),
        setup.progress_chars@ == "=> "@,
        setup.refresh_hz == 20,
        setup.tick_millis == 100,
{
}

/// The output of an event goes to the destination of the reporter, once: to the end of the buffer, or
/// into the report for the terminal. With a bar, the report also says what changes about it. The
/// destination stays.
pub proof fn law_output_goes_to_the_destination(
    before: TestReporter,
    kind: TestEventKind,
    after: TestReporter,
    made: EventReport,
)
    requires
        builder::is_reported(before, kind, after, made),
    ensures
        ({
            let bytes = report::event_output(before.inner, kind, after.inner.final_outputs@);
            match before.stderr {
                ReporterStderrImpl::TerminalWithBar(setup) => {
                    &&& after.stderr == ReporterStderrImpl::TerminalWithBar(setup)
                    &&& made matches EventReport::AroundBar { output, update } && output@ == bytes
                        && update.is_for(kind, before.inner.styles)
                },
                ReporterStderrImpl::TerminalWithoutBar => {
                    &&& after.stderr is TerminalWithoutBar
                    &&& made matches EventReport::ToStderr { output } && output@ == bytes
                },
                ReporterStderrImpl::Buffer(b0) => {
                    &&& after.stderr matches ReporterStderrImpl::Buffer(b1) && (*b1)@ == (*b0)@
                        + bytes
                    &&& made is ToBuffer
                },
            }
        }),
{
}

/// The levels of a new reporter: the ones that were set or, failing that, those of the profile. In
/// no-capture mode a status level below the one for passing tests becomes that one, and no other
/// level changes.
pub proof fn law_levels_of_new_reporters(
    builder: TestReporterBuilder,
    test_list: TestList,
    profile: NextestProfile,
    inner: TestReporterImpl,
)
    requires
        builder.starts_as(test_list, profile, inner),
    ensures
        ({
            let chosen = if builder.status_level is Some {
                builder.status_level->0
            } else {
                profile.status_level
            };
            &&& !builder.no_capture ==> inner.status_level == chosen
            &&& builder.no_capture && (chosen == StatusLevel::Skip || chosen == StatusLevel::All)
                ==> inner.status_level == chosen
            &&& builder.no_capture && chosen != StatusLevel::Skip && chosen != StatusLevel::All
                ==> inner.status_level == StatusLevel::Pass
        }),
        builder.final_status_level is Some ==> inner.final_status_level
            == builder.final_status_level->0,
        builder.final_status_level is None ==> inner.final_status_level
            == profile.final_status_level,
        inner.no_capture == builder.no_capture,
        inner.cancel_status is None,
        inner.final_outputs@.len() == 0,
        inner.styles == Styles::plain(),
        builder::fits_binary_ids(test_list.suites@, inner.binary_id_width),
{
}

/// A new reporter writes to the buffer that it was given. On a terminal it has a progress bar, for
/// the number of tests, unless it is in no-capture mode, runs in a CI service, or is to hide the bar.
pub proof fn law_destinations_of_new_reporters(
    builder: TestReporterBuilder,
    test_list: TestList,
    output: ReporterStderr,
    in_ci: bool,
    stderr: ReporterStderrImpl,
)
    requires
        builder.writes_to(test_list, output, in_ci, stderr),
    ensures
        output is Terminal && (builder.no_capture || in_ci || builder.hide_progress_bar)
            ==> stderr is TerminalWithoutBar,
        output is Terminal && !builder.no_capture && !in_ci && !builder.hide_progress_bar ==> (
        stderr matches ReporterStderrImpl::TerminalWithBar(setup) && setup.is_for(
            test_list.test_count,
        )),
        output matches ReporterStderr::Buffer(given) ==> (
        stderr matches ReporterStderrImpl::Buffer(kept) && (*kept)@ == (*given)@),
{
}

} // verus!
