//! What holds of reports as a whole.

use crate::builder;
use crate::builder::{
    EventReport, NextestProfile, ReporterStderrImpl, TestReporter, TestReporterBuilder,
};
use crate::event::TestEventKind;
use crate::final_output;
use crate::final_output::{Entry, EntryKey, FinalOutput};
use crate::levels;
use crate::levels::{FinalStatusLevel, ForceOutput, StatusLevel, TestOutputDisplay};
use crate::lines;
use crate::lines::TestReporterImpl;
use crate::list::{RustTestSuite, TestInstance};
use crate::progress::ProgressBarUpdate;
use crate::report;
use crate::runner;
use crate::runner::{
    AbortStatus, ExecuteStatus, ExecutionDescription, ExecutionResult, ExecutionStatuses, RetryData,
    TimeSpan,
};
use crate::style::{Style, Styles};
use crate::text;
use vstd::multiset::*;
use vstd::prelude::*;
use vstd::seq_lib::*;
use vstd::utf8::*;

verus! {

/// True if the line for an event that something is slow has another status in it at the higher
/// level than at the lower one: the number of the attempt for a test that is about to be terminated,
/// and one at all for a setup script.
pub open spec fn relabels(lower: StatusLevel, higher: StatusLevel, kind: TestEventKind) -> bool {
    match kind {
        TestEventKind::SetupScriptSlow { will_terminate, .. } => {
            !will_terminate && lower.rank() < StatusLevel::Slow.rank() <= higher.rank()
        },
        TestEventKind::TestSlow { retry_data, will_terminate, .. } => {
            let required = report::slow_test_level(retry_data, will_terminate);
            will_terminate && retry_data.total_attempts > 1 && lower == required && higher
                != required
        },
        _ => false,
    }
}

/// Status levels are incremental: what is written for an event at some level is written for it at
/// every higher level too.
///
/// Left out are the lines that have another status in them at the higher level.
pub proof fn law_status_levels_are_incremental(
    lower: TestReporterImpl,
    higher: TestReporterImpl,
    kind: TestEventKind,
    entries: Seq<Entry>,
)
    requires
        lower.status_level.rank() <= higher.status_level.rank(),
        lower == (TestReporterImpl { status_level: lower.status_level, ..higher }),
        !relabels(lower.status_level, higher.status_level, kind),
    ensures
        report::event_output(lower, kind, entries) == Seq::<u8>::empty() || report::event_output(
            lower,
            kind,
            entries,
        ) == report::event_output(higher, kind, entries),
{
}

/// Nothing is written about a test below the level for it: about retries below the level for
/// retries, about a slow test that goes on below the level for slow tests, about one that is about to
/// be terminated below the level for failures or, if it is retried, for retries, about a skipped test
/// below the level for skipped tests, and about a test that finished below the level for its outcome.
/// At the lowest level nothing is written about these.
pub proof fn law_tests_below_their_level_are_hidden(
    reporter: TestReporterImpl,
    kind: TestEventKind,
    entries: Seq<Entry>,
)
    requires
        match kind {
            TestEventKind::TestAttemptFailedWillRetry { .. } => reporter.status_level.rank()
                < StatusLevel::Retry.rank(),
            TestEventKind::TestRetryStarted { .. } => reporter.status_level.rank()
                < StatusLevel::Retry.rank(),
            TestEventKind::TestSlow { retry_data, will_terminate, .. } => {
                let required = if !will_terminate {
                    StatusLevel::Slow
                } else if retry_data.last_attempt() {
                    StatusLevel::Fail
                } else {
                    StatusLevel::Retry
                };
                reporter.status_level.rank() < required.rank()
            },
            TestEventKind::TestSkipped { .. } => reporter.status_level.rank()
                < StatusLevel::Skip.rank(),
            TestEventKind::TestFinished { run_statuses, .. } => reporter.status_level.rank()
                < run_statuses.status_level.rank(),
            _ => false,
        },
    ensures
        report::event_output(reporter, kind, entries) == Seq::<u8>::empty(),
{
}

/// Final status levels are incremental: what is kept and shown at the end of the run at some level
/// is kept and shown at every higher level too.
pub proof fn law_final_status_levels_are_incremental(
    lower: FinalStatusLevel,
    higher: FinalStatusLevel,
    kind: TestEventKind,
    styles: Styles,
    width: usize,
    entry: Entry,
)
    requires
        lower.rank() <= higher.rank(),
    ensures
        report::kept_entries(lower, kind) == Seq::<Entry>::empty() || report::kept_entries(
            lower,
            kind,
        ) == report::kept_entries(higher, kind),
        report::entry_output(styles, width, lower, entry) == Seq::<u8>::empty()
            || report::entry_output(styles, width, lower, entry) == report::entry_output(
            styles,
            width,
            higher,
            entry,
        ),
{
    if let FinalOutput::Executed { run_statuses, test_output_display } = entry.1 {
        if !test_output_display.shows_finally() && lower.rank()
            < run_statuses.final_status_level.rank() {
            assert(report::entry_output(styles, width, lower, entry) =~= Seq::<u8>::empty());
        }
    }
}

/// In no-capture mode the status level is at least pass, whatever was set and whatever the profile
/// says, so passing tests are shown. There is no progress bar in that mode.
pub proof fn law_no_capture_overrides(builder: TestReporterBuilder, profile: NextestProfile)
    requires
        builder.no_capture,
    ensures
        builder.effective_status_level(profile).rank() >= StatusLevel::Pass.rank(),
        forall|in_ci: bool| builder.goes_without_bar(in_ci),
{
}

/// Outside of no-capture mode, a level that was set takes precedence over the profile's.
pub proof fn law_set_levels_take_precedence(
    builder: TestReporterBuilder,
    profile: NextestProfile,
    level: StatusLevel,
    final_level: FinalStatusLevel,
)
    requires
        !builder.no_capture,
        builder.status_level == Some(level),
        builder.final_status_level == Some(final_level),
    ensures
        builder.effective_status_level(profile) == level,
        builder.effective_final_status_level(profile) == final_level,
{
}

/// The column for binary IDs has just one width that fits.
pub proof fn law_binary_id_width_is_unique(suites: Seq<RustTestSuite>, w1: usize, w2: usize)
    requires
        builder::fits_binary_ids(suites, w1),
        builder::fits_binary_ids(suites, w2),
    ensures
        w1 == w2,
{
}

/// True if each state of a reporter comes about from the one before by the event between them.
pub open spec fn is_run<'a>(
    states: Seq<TestReporterImpl<'a>>,
    kinds: Seq<TestEventKind<'a>>,
) -> bool {
    &&& states.len() == kinds.len() + 1
    &&& forall|i: int|
        0 <= i < kinds.len() ==> report::event_effect(
            states[i],
            #[trigger] kinds[i],
            states[i + 1],
        )
}

/// No event changes the settings of a reporter.
pub proof fn law_settings_stay<'a>(
    states: Seq<TestReporterImpl<'a>>,
    kinds: Seq<TestEventKind<'a>>,
    i: int,
)
    requires
        is_run(states, kinds),
        0 <= i < states.len(),
    ensures
        states[i].status_level == states[0].status_level,
        states[i].final_status_level == states[0].final_status_level,
        states[i].no_capture == states[0].no_capture,
        states[i].binary_id_width == states[0].binary_id_width,
        states[i].styles == states[0].styles,
    decreases i,
{
    if i > 0 {
        law_settings_stay(states, kinds, i - 1);
        assert(report::event_effect(states[i - 1], kinds[i - 1], states[i - 1 + 1]));
    }
}

/// The cancel status never becomes less severe in the course of a run, and it is at least as severe
/// as every reason that came up.
pub proof fn law_cancel_status_escalates<'a>(
    states: Seq<TestReporterImpl<'a>>,
    kinds: Seq<TestEventKind<'a>>,
    i: int,
    j: int,
)
    requires
        is_run(states, kinds),
        0 <= i <= j < states.len(),
    ensures
        levels::cancel_severity(states[i].cancel_status) <= levels::cancel_severity(
            states[j].cancel_status,
        ),
        i < j ==> (kinds[i] matches TestEventKind::RunBeginCancel { reason, .. }
            ==> reason.severity() <= levels::cancel_severity(states[j].cancel_status)),
    decreases j - i,
{
    if i < j {
        assert(report::event_effect(states[i], kinds[i], states[i + 1]));
        law_cancel_status_escalates(states, kinds, i + 1, j);
    }
}

/// Once a signal or an interrupt has stopped a run, no test output is written any more: a test that
/// finishes is shown by its line at most, and the end of the run by its summary alone.
pub proof fn law_no_test_output_after_signal<'a>(
    states: Seq<TestReporterImpl<'a>>,
    kinds: Seq<TestEventKind<'a>>,
    i: int,
    j: int,
    entries: Seq<Entry<'a>>,
)
    requires
        is_run(states, kinds),
        0 <= i <= j < kinds.len(),
        levels::stopped_by_signal(states[i].cancel_status),
    ensures
        kinds[j] matches TestEventKind::TestFinished { test_instance, run_statuses, .. } ==> {
            let output = report::event_output(states[j], kinds[j], entries);
            output == Seq::<u8>::empty() || output == encode_utf8(
                lines::status_line(
                    states[j].styles,
                    states[j].binary_id_width,
                    test_instance,
                    run_statuses,
                ),
            )
        },
        kinds[j] matches TestEventKind::RunFinished { elapsed, run_stats, .. }
            ==> report::event_output(states[j], kinds[j], entries) == encode_utf8(
            report::run_finished_text(states[j].styles, elapsed, run_stats),
        ),
{
    law_cancel_status_escalates(states, kinds, i, j);
    let output = report::event_output(states[j], kinds[j], entries);
    if let TestEventKind::TestFinished { test_instance, run_statuses, .. } = kinds[j] {
        let line = encode_utf8(
            lines::status_line(
                states[j].styles,
                states[j].binary_id_width,
                test_instance,
                run_statuses,
            ),
        );
        assert(line + Seq::<u8>::empty() =~= line);
    }
    if let TestEventKind::RunFinished { elapsed, run_stats, .. } = kinds[j] {
        let text = encode_utf8(report::run_finished_text(states[j].styles, elapsed, run_stats));
        assert(text + Seq::<u8>::empty() =~= text);
    }
}

/// Everything that the events of a run leave for its end, one after the other.
pub open spec fn all_kept<'a>(
    final_status_level: FinalStatusLevel,
    kinds: Seq<TestEventKind<'a>>,
) -> Seq<Entry<'a>>
    decreases kinds.len(),
{
    if kinds.len() == 0 {
        seq![]
    } else {
        all_kept(final_status_level, kinds.drop_last()) + report::kept_entries(
            final_status_level,
            kinds.last(),
        )
    }
}

/// Until the run finishes, a reporter holds what the events left for the end, in the order in which
/// they came.
pub proof fn law_outputs_are_kept<'a>(
    states: Seq<TestReporterImpl<'a>>,
    kinds: Seq<TestEventKind<'a>>,
    n: int,
)
    requires
        is_run(states, kinds),
        0 <= n <= kinds.len(),
        forall|i: int| 0 <= i < n ==> !(#[trigger] kinds[i] is RunFinished),
    ensures
        states[n].final_outputs@ == states[0].final_outputs@ + all_kept(
            states[0].final_status_level,
            kinds.take(n),
        ),
    decreases n,
{
    if n == 0 {
        assert(states[0].final_outputs@ =~= states[0].final_outputs@ + Seq::<Entry>::empty());
    } else {
        law_outputs_are_kept(states, kinds, n - 1);
        law_settings_stay(states, kinds, n - 1);
        assert(report::event_effect(states[n - 1], kinds[n - 1], states[n - 1 + 1]));
        assert(kinds.take(n).drop_last() =~= kinds.take(n - 1));
        assert(kinds.take(n).last() == kinds[n - 1]);
        assert(states[n].final_outputs@ =~= states[0].final_outputs@ + all_kept(
            states[0].final_status_level,
            kinds.take(n),
        ));
    }
}

/// Only a test that finished or was skipped is kept for the end of the run, and only once: retries
/// are not.
pub proof fn law_retries_are_not_kept(level: FinalStatusLevel, kind: TestEventKind)
    ensures
        report::kept_entries(level, kind).len() <= 1,
        !(kind is TestFinished) && !(kind is TestSkipped) ==> report::kept_entries(level, kind)
            == Seq::<Entry>::empty(),
{
}

/// What is kept of a test is shown at the end of the run: at least its line.
pub proof fn law_kept_tests_are_shown(
    level: FinalStatusLevel,
    kind: TestEventKind,
    styles: Styles,
    width: usize,
)
    requires
        report::kept_entries(level, kind).len() > 0,
    ensures
        ({
            let entry = report::kept_entries(level, kind)[0];
            report::entry_output(styles, width, level, entry) == match entry.1 {
                FinalOutput::Skipped(_) => encode_utf8(lines::skip_line(styles, width, entry.0)),
                FinalOutput::Executed { run_statuses, test_output_display } => {
                    encode_utf8(lines::final_status_line(styles, width, entry.0, run_statuses)) + (
                    if test_output_display.shows_finally() {
                        lines::stdout_stderr(styles, width, entry.0, run_statuses.last_status, false)
                    } else {
                        Seq::<u8>::empty()
                    })
                },
            }
        }),
{
}

/// At the end of a run, tests of a higher level come before those of a lower one, so failing tests
/// come at the very end. Tests of the same level are ordered by binary ID and name.
pub proof fn law_failing_tests_come_last<'a>(
    before: TestReporterImpl<'a>,
    kind: TestEventKind<'a>,
    after: TestReporterImpl<'a>,
    i: int,
    j: int,
)
    requires
        report::event_effect(before, kind, after),
        report::shows_final_outputs(before, kind),
        0 <= i < j < after.final_outputs@.len(),
    ensures
        after.final_outputs@[i].1.level().rank() >= after.final_outputs@[j].1.level().rank(),
        after.final_outputs@[i].1.level() is Fail ==> after.final_outputs@[j].1.level().rank()
            <= FinalStatusLevel::Fail.rank(),
        after.final_outputs@[i].1.level() == after.final_outputs@[j].1.level()
            ==> final_output::key_le(
            final_output::key_of(after.final_outputs@[i]),
            final_output::key_of(after.final_outputs@[j]),
        ),
{
    let entries = after.final_outputs@;
    assert(final_output::key_le(
        final_output::key_of(entries[i]),
        final_output::key_of(entries[j]),
    ));
}

/// Selecting entries by a key that an entry has leaves as many copies of it.
proof fn lemma_with_key_count(entries: Seq<Entry>, entry: Entry)
    ensures
        final_output::with_key(entries, final_output::key_of(entry)).to_multiset().count(entry)
            == entries.to_multiset().count(entry),
    decreases entries.len(),
{
    broadcast use group_to_multiset_ensures;

    reveal(Seq::filter);
    let key = final_output::key_of(entry);
    let pred = |e: Entry| final_output::key_of(e) == key;
    if entries.len() > 0 {
        let shorter = entries.drop_last();
        lemma_with_key_count(shorter, entry);
        assert(entries =~= shorter.push(entries.last()));
        assert(entries.to_multiset() =~= shorter.to_multiset().insert(entries.last()));
        if pred(entries.last()) {
            assert(entries.filter(pred) =~= shorter.filter(pred).push(entries.last()));
        }
    } else {
        assert(entries.filter(pred) =~= entries);
    }
}

/// Sorting loses nothing and adds nothing.
pub proof fn law_sorting_permutes(before: Seq<Entry>, after: Seq<Entry>)
    requires
        final_output::is_stable_sort(before, after),
    ensures
        after.to_multiset() == before.to_multiset(),
        after.len() == before.len(),
{
    broadcast use group_to_multiset_ensures;

    assert forall|entry: Entry| #[trigger]
        after.to_multiset().count(entry) == before.to_multiset().count(entry) by {
        lemma_with_key_count(before, entry);
        lemma_with_key_count(after, entry);
        assert(final_output::with_key(after, final_output::key_of(entry)) == final_output::with_key(
            before,
            final_output::key_of(entry),
        ));
    }
    assert(after.to_multiset() =~= before.to_multiset());
    assert(after.to_multiset().len() == after.len());
    assert(before.to_multiset().len() == before.len());
}

/// The entries with a given key, with the first entry taken apart.
proof fn lemma_with_key_first(entries: Seq<Entry>, key: EntryKey)
    requires
        entries.len() > 0,
    ensures
        final_output::key_of(entries[0]) == key ==> final_output::with_key(entries, key) == seq![
            entries[0],
        ] + final_output::with_key(entries.drop_first(), key),
        final_output::key_of(entries[0]) != key ==> final_output::with_key(entries, key)
            == final_output::with_key(entries.drop_first(), key),
{
    let pred = |e: Entry| final_output::key_of(e) == key;
    let head = seq![entries[0]];
    assert(entries =~= head + entries.drop_first());
    Seq::filter_distributes_over_add(head, entries.drop_first(), pred);
    reveal_with_fuel(Seq::filter, 2);
    assert(head.drop_last() =~= Seq::<Entry>::empty());
    if pred(entries[0]) {
        assert(head.filter(pred) =~= head);
    } else {
        assert(head.filter(pred) =~= Seq::<Entry>::empty());
        assert(final_output::with_key(entries, key) =~= final_output::with_key(
            entries.drop_first(),
            key,
        ));
    }
}

/// Two ordered sequences with the same entries for each key start with the same key.
proof fn lemma_same_first_key(a: Seq<Entry>, b: Seq<Entry>)
    requires
        final_output::in_order(a),
        a.len() > 0,
        b.len() > 0,
        forall|key: EntryKey| #[trigger]
            final_output::with_key(a, key) == final_output::with_key(b, key),
    ensures
        final_output::key_le(final_output::key_of(a[0]), final_output::key_of(b[0])),
{
    let key = final_output::key_of(b[0]);
    lemma_with_key_first(b, key);
    let found = final_output::with_key(a, key);
    assert(found == final_output::with_key(b, key));
    assert(found[0] == b[0]);
    final_output::lemma_with_key_members(a, key, 0);
    let m = choose|m: int| 0 <= m < a.len() && a[m] == b[0];
    assert(final_output::key_le(final_output::key_of(a[0]), final_output::key_of(a[m])));
}

/// There is only one way to sort: the end of a run is shown in an order that its events determine.
pub proof fn law_sorting_is_determined(before: Seq<Entry>, a: Seq<Entry>, b: Seq<Entry>)
    requires
        final_output::is_stable_sort(before, a),
        final_output::is_stable_sort(before, b),
    ensures
        a == b,
{
    assert forall|key: EntryKey| #[trigger]
        final_output::with_key(a, key) == final_output::with_key(b, key) by {
        assert(final_output::with_key(a, key) == final_output::with_key(before, key));
        assert(final_output::with_key(b, key) == final_output::with_key(before, key));
    }
    lemma_ordered_alike(a, b);
}

/// Sequences with the same entries for each key are empty together.
proof fn lemma_empty_together(a: Seq<Entry>, b: Seq<Entry>)
    requires
        a.len() == 0,
        forall|key: EntryKey| #[trigger]
            final_output::with_key(a, key) == final_output::with_key(b, key),
    ensures
        b.len() == 0,
{
    if b.len() > 0 {
        let key = final_output::key_of(b[0]);
        lemma_with_key_first(b, key);
        assert(final_output::with_key(a, key) == final_output::with_key(b, key));
        reveal(Seq::filter);
        assert(final_output::with_key(a, key) =~= Seq::<Entry>::empty());
    }
}

/// Taking the same first entry off two sequences takes it off those that are selected by a key.
proof fn lemma_with_key_rest(a: Seq<Entry>, b: Seq<Entry>, key: EntryKey)
    requires
        a.len() > 0,
        b.len() > 0,
        a[0] == b[0],
        final_output::with_key(a, key) == final_output::with_key(b, key),
    ensures
        final_output::with_key(a.drop_first(), key) == final_output::with_key(b.drop_first(), key),
{
    lemma_with_key_first(a, key);
    lemma_with_key_first(b, key);
    if final_output::key_of(a[0]) == key {
        assert(final_output::with_key(a, key).drop_first() =~= final_output::with_key(
            a.drop_first(),
            key,
        ));
        assert(final_output::with_key(b, key).drop_first() =~= final_output::with_key(
            b.drop_first(),
            key,
        ));
    }
}

/// Ordered sequences with the same entries for each key start with the same entry.
proof fn lemma_same_first(a: Seq<Entry>, b: Seq<Entry>)
    requires
        final_output::in_order(a),
        final_output::in_order(b),
        a.len() > 0,
        b.len() > 0,
        forall|key: EntryKey| #[trigger]
            final_output::with_key(a, key) == final_output::with_key(b, key),
    ensures
        a[0] == b[0],
{
    lemma_same_first_key(a, b);
    assert forall|key: EntryKey| #[trigger]
        final_output::with_key(b, key) == final_output::with_key(a, key) by {
        assert(final_output::with_key(a, key) == final_output::with_key(b, key));
    }
    lemma_same_first_key(b, a);
    let first_key = final_output::key_of(a[0]);
    final_output::lemma_key_le_antisymmetric(first_key, final_output::key_of(b[0]));
    lemma_with_key_first(a, first_key);
    lemma_with_key_first(b, first_key);
    assert(final_output::with_key(a, first_key)[0] == a[0]);
    assert(final_output::with_key(b, first_key)[0] == b[0]);
}

/// Ordered sequences with the same entries for each key are the same.
proof fn lemma_ordered_alike(a: Seq<Entry>, b: Seq<Entry>)
    requires
        final_output::in_order(a),
        final_output::in_order(b),
        forall|key: EntryKey| #[trigger]
            final_output::with_key(a, key) == final_output::with_key(b, key),
    ensures
        a == b,
    decreases a.len(),
{
    if a.len() == 0 {
        lemma_empty_together(a, b);
        assert(a =~= b);
    } else if b.len() == 0 {
        assert forall|key: EntryKey| #[trigger]
            final_output::with_key(b, key) == final_output::with_key(a, key) by {
            assert(final_output::with_key(a, key) == final_output::with_key(b, key));
        }
        lemma_empty_together(b, a);
    } else {
        lemma_same_first(a, b);
        let rest_a = a.drop_first();
        let rest_b = b.drop_first();
        assert forall|key: EntryKey| #[trigger]
            final_output::with_key(rest_a, key) == final_output::with_key(rest_b, key) by {
            assert(final_output::with_key(a, key) == final_output::with_key(b, key));
            lemma_with_key_rest(a, b, key);
        }
        final_output::lemma_rest_in_order(a);
        final_output::lemma_rest_in_order(b);
        lemma_ordered_alike(rest_a, rest_b);
        assert(a =~= seq![a[0]] + rest_a);
        assert(b =~= seq![b[0]] + rest_b);
    }
}

/// What a reporter writes for an event, and the state that it is in afterwards, are determined by
/// its state and the event.
pub proof fn law_reports_are_determined<'a>(
    before: TestReporterImpl<'a>,
    kind: TestEventKind<'a>,
    after1: TestReporterImpl<'a>,
    after2: TestReporterImpl<'a>,
)
    requires
        report::event_effect(before, kind, after1),
        report::event_effect(before, kind, after2),
    ensures
        after1.final_outputs@ == after2.final_outputs@,
        after1.cancel_status == after2.cancel_status,
        report::event_output(before, kind, after1.final_outputs@) == report::event_output(
            before,
            kind,
            after2.final_outputs@,
        ),
{
    if report::shows_final_outputs(before, kind) {
        law_sorting_is_determined(
            before.final_outputs@,
            after1.final_outputs@,
            after2.final_outputs@,
        );
    }
}

/// Everything that is written for the first `n` events of a run.
pub open spec fn written<'a>(
    states: Seq<TestReporterImpl<'a>>,
    kinds: Seq<TestEventKind<'a>>,
    n: int,
) -> Seq<u8>
    decreases n,
{
    if n <= 0 {
        seq![]
    } else {
        written(states, kinds, n - 1) + report::event_output(
            states[n - 1],
            kinds[n - 1],
            states[n].final_outputs@,
        )
    }
}

/// True if two status levels have the same meaning: they are the same, or each is the one for
/// skipped tests or the highest one.
pub open spec fn same_meaning(a: StatusLevel, b: StatusLevel) -> bool {
    a == b || (a.rank() >= StatusLevel::Skip.rank() && b.rank() >= StatusLevel::Skip.rank())
}

/// True if two final status levels have the same meaning: they are the same, or each is the one for
/// passing tests or the highest one.
pub open spec fn same_final_meaning(a: FinalStatusLevel, b: FinalStatusLevel) -> bool {
    a == b || (a.rank() >= FinalStatusLevel::Pass.rank() && b.rank()
        >= FinalStatusLevel::Pass.rank())
}

/// True if two reporters are in the same state, but for levels that have the same meaning.
pub open spec fn alike(a: TestReporterImpl, b: TestReporterImpl) -> bool {
    &&& same_meaning(a.status_level, b.status_level)
    &&& same_final_meaning(a.final_status_level, b.final_status_level)
    &&& a.no_capture == b.no_capture
    &&& a.binary_id_width == b.binary_id_width
    &&& a.styles == b.styles
    &&& a.cancel_status == b.cancel_status
    &&& a.final_outputs@ == b.final_outputs@
}

/// True if the test that an event is about does not have one of the highest levels itself.
pub open spec fn is_below_all(kind: TestEventKind) -> bool {
    kind matches TestEventKind::TestFinished { run_statuses, .. } ==> {
        &&& !(run_statuses.status_level is All)
        &&& !(run_statuses.final_status_level is All)
    }
}

/// True if no entry has the highest level.
pub open spec fn are_below_all(entries: Seq<Entry>) -> bool {
    forall|i: int| 0 <= i < entries.len() ==> !((#[trigger] entries[i]).1.level() is All)
}

/// Entries are shown alike at final levels that have the same meaning.
proof fn lemma_entries_shown_alike(
    styles: Styles,
    width: usize,
    a: FinalStatusLevel,
    b: FinalStatusLevel,
    entries: Seq<Entry>,
)
    requires
        same_final_meaning(a, b),
        are_below_all(entries),
    ensures
        report::entries_output(styles, width, a, entries) == report::entries_output(
            styles,
            width,
            b,
            entries,
        ),
    decreases entries.len(),
{
    if entries.len() > 0 {
        let shorter = entries.drop_last();
        assert forall|i: int| 0 <= i < shorter.len() implies !(
        (#[trigger] shorter[i]).1.level() is All) by {
            assert(shorter[i] == entries[i]);
        }
        lemma_entries_shown_alike(styles, width, a, b, shorter);
        assert(!(entries[entries.len() - 1].1.level() is All));
    }
}

/// Reporters that are alike take in an event alike.
proof fn lemma_alike_step<'a>(
    a0: TestReporterImpl<'a>,
    b0: TestReporterImpl<'a>,
    kind: TestEventKind<'a>,
    a1: TestReporterImpl<'a>,
    b1: TestReporterImpl<'a>,
)
    requires
        alike(a0, b0),
        is_below_all(kind),
        are_below_all(a0.final_outputs@),
        report::event_effect(a0, kind, a1),
        report::event_effect(b0, kind, b1),
    ensures
        alike(a1, b1),
        are_below_all(a1.final_outputs@),
        report::event_output(a0, kind, a1.final_outputs@) == report::event_output(
            b0,
            kind,
            b1.final_outputs@,
        ),
{
    let before = a0.final_outputs@;
    let after = a1.final_outputs@;
    if report::shows_final_outputs(a0, kind) {
        law_sorting_is_determined(before, after, b1.final_outputs@);
        assert forall|i: int| 0 <= i < after.len() implies !(
        (#[trigger] after[i]).1.level() is All) by {
            final_output::lemma_stable_sort_members(before, after, i);
            let m = choose|m: int| 0 <= m < before.len() && before[m] == after[i];
            assert(!(before[m].1.level() is All));
        }
        lemma_entries_shown_alike(
            a0.styles,
            a0.binary_id_width,
            a0.final_status_level,
            b0.final_status_level,
            after,
        );
    } else {
        assert(report::kept_entries(a0.final_status_level, kind) == report::kept_entries(
            b0.final_status_level,
            kind,
        ));
    }
}

/// The highest status level has the same meaning as the one for skipped tests, and the highest final
/// one the same as the one for passing tests: reporters that differ in no more than that write the
/// same for the same events. No test has one of the highest levels itself.
pub proof fn law_highest_levels_mean_the_ones_below<'a>(
    a: Seq<TestReporterImpl<'a>>,
    b: Seq<TestReporterImpl<'a>>,
    kinds: Seq<TestEventKind<'a>>,
    n: int,
)
    requires
        is_run(a, kinds),
        is_run(b, kinds),
        alike(a[0], b[0]),
        are_below_all(a[0].final_outputs@),
        forall|i: int| 0 <= i < kinds.len() ==> is_below_all(#[trigger] kinds[i]),
        0 <= n <= kinds.len(),
    ensures
        written(a, kinds, n) == written(b, kinds, n),
        alike(a[n], b[n]),
        are_below_all(a[n].final_outputs@),
    decreases n,
{
    if n > 0 {
        law_highest_levels_mean_the_ones_below(a, b, kinds, n - 1);
        let kind = kinds[n - 1];
        assert(report::event_effect(a[n - 1], kind, a[n - 1 + 1]));
        assert(report::event_effect(b[n - 1], kind, b[n - 1 + 1]));
        lemma_alike_step(a[n - 1], b[n - 1], kind, a[n], b[n]);
    }
}

/// True if each of the reporters comes about from the one before by reporting the event between
/// them.
pub open spec fn is_reported_run<'a>(
    reporters: Seq<TestReporter<'a>>,
    kinds: Seq<TestEventKind<'a>>,
    reports: Seq<EventReport>,
) -> bool {
    &&& reporters.len() == kinds.len() + 1
    &&& reports.len() == kinds.len()
    &&& forall|i: int|
        0 <= i < kinds.len() ==> {
            &&& report::event_effect(reporters[i].inner, #[trigger] kinds[i], reporters[i + 1].inner)
            &&& builder::is_reported(reporters[i], kinds[i], reporters[i + 1], reports[i])
        }
}

/// The states of the reporters.
pub open spec fn states_of<'a>(reporters: Seq<TestReporter<'a>>) -> Seq<TestReporterImpl<'a>> {
    Seq::new(reporters.len(), |i: int| reporters[i].inner)
}

/// What is in the buffer of a reporter, if it writes to one.
pub open spec fn buffered(reporter: TestReporter) -> Option<Seq<u8>> {
    match reporter.stderr {
        ReporterStderrImpl::Buffer(buf) => Some((*buf)@),
        _ => None,
    }
}

/// A buffer receives what is written for each event, one after the other, and nothing else.
pub proof fn law_buffers_receive_what_is_written<'a>(
    reporters: Seq<TestReporter<'a>>,
    kinds: Seq<TestEventKind<'a>>,
    reports: Seq<EventReport>,
    n: int,
)
    requires
        is_reported_run(reporters, kinds, reports),
        buffered(reporters[0]) is Some,
        0 <= n <= kinds.len(),
    ensures
        buffered(reporters[n]) == Some(
            buffered(reporters[0])->0 + written(states_of(reporters), kinds, n),
        ),
    decreases n,
{
    let states = states_of(reporters);
    let start = buffered(reporters[0])->0;
    if n == 0 {
        assert(start + written(states, kinds, 0) =~= start);
    } else {
        law_buffers_receive_what_is_written(reporters, kinds, reports, n - 1);
        assert(report::event_effect(
            reporters[n - 1].inner,
            kinds[n - 1],
            reporters[n - 1 + 1].inner,
        ));
        let bytes = report::event_output(states[n - 1], kinds[n - 1], states[n].final_outputs@);
        assert(buffered(reporters[n]) == Some(buffered(reporters[n - 1])->0 + bytes));
        assert(start + written(states, kinds, n) =~= start + written(states, kinds, n - 1) + bytes);
    }
}

/// Buffers receive the same bytes for the same events from reporters that differ in no more than
/// levels that have the same meaning. No test has one of the highest levels itself.
pub proof fn law_highest_levels_fill_buffers_alike<'a>(
    a: Seq<TestReporter<'a>>,
    b: Seq<TestReporter<'a>>,
    kinds: Seq<TestEventKind<'a>>,
    reports_a: Seq<EventReport>,
    reports_b: Seq<EventReport>,
    n: int,
)
    requires
        is_reported_run(a, kinds, reports_a),
        is_reported_run(b, kinds, reports_b),
        buffered(a[0]) is Some,
        buffered(b[0]) is Some,
        alike(a[0].inner, b[0].inner),
        are_below_all(a[0].inner.final_outputs@),
        forall|i: int| 0 <= i < kinds.len() ==> is_below_all(#[trigger] kinds[i]),
        0 <= n <= kinds.len(),
    ensures
        ({
            let bytes = written(states_of(a), kinds, n);
            &&& buffered(a[n]) == Some(buffered(a[0])->0 + bytes)
            &&& buffered(b[n]) == Some(buffered(b[0])->0 + bytes)
        }),
{
    law_buffers_receive_what_is_written(a, kinds, reports_a, n);
    law_buffers_receive_what_is_written(b, kinds, reports_b, n);
    assert(is_run(states_of(a), kinds));
    assert(is_run(states_of(b), kinds));
    law_highest_levels_mean_the_ones_below(states_of(a), states_of(b), kinds, n);
}

/// A progress bar that a setup script's start hides comes back when the script finishes, and only
/// then.
pub proof fn law_hidden_bar_comes_back(
    started: TestEventKind,
    finished: TestEventKind,
    styles: Styles,
    on_start: ProgressBarUpdate,
    on_finish: ProgressBarUpdate,
)
    requires
        started matches TestEventKind::SetupScriptStarted { no_capture: a, .. } && (
        finished matches TestEventKind::SetupScriptFinished { no_capture: b, .. } && a == b),
        on_start.is_for(started, styles),
        on_finish.is_for(finished, styles),
    ensures
        on_start is Hide <==> on_finish is Show,
        on_start is Unchanged <==> on_finish is Unchanged,
{
}

/// Test output that is never to be shown is not shown, neither when the test is done nor at the end
/// of the run.
pub proof fn law_never_means_never(
    reporter: TestReporterImpl,
    instance: TestInstance,
    statuses: ExecutionStatuses,
)
    ensures
        ({
            let output = report::test_finished_output(
                reporter,
                instance,
                statuses,
                TestOutputDisplay::Never,
            );
            output == Seq::<u8>::empty() || output == encode_utf8(
                lines::status_line(reporter.styles, reporter.binary_id_width, instance, statuses),
            )
        }),
        ({
            let entry = (
                instance,
                FinalOutput::Executed {
                    run_statuses: statuses,
                    test_output_display: TestOutputDisplay::Never,
                },
            );
            let output = report::entry_output(
                reporter.styles,
                reporter.binary_id_width,
                reporter.final_status_level,
                entry,
            );
            output == Seq::<u8>::empty() || output == encode_utf8(
                lines::final_status_line(
                    reporter.styles,
                    reporter.binary_id_width,
                    instance,
                    statuses,
                ),
            )
        }),
{
    let line = encode_utf8(
        lines::status_line(reporter.styles, reporter.binary_id_width, instance, statuses),
    );
    assert(line + Seq::<u8>::empty() =~= line);
    let final_line = encode_utf8(
        lines::final_status_line(reporter.styles, reporter.binary_id_width, instance, statuses),
    );
    assert(final_line + Seq::<u8>::empty() =~= final_line);
    assert(Seq::<u8>::empty() + Seq::<u8>::empty() =~= Seq::<u8>::empty());
}

/// In no-capture mode the settings for test output are ignored: a test whose settings are those that
/// are forced in that mode is shown by its line at most, both when it is done and at the end of the
/// run.
pub proof fn law_uncaptured_tests_show_no_output(
    reporter: TestReporterImpl,
    kind: TestEventKind,
    entries: Seq<Entry>,
)
    requires
        kind matches TestEventKind::TestFinished { success_output, failure_output, .. } && (
        ForceOutput { success: Some(success_output), failure: Some(failure_output) })
            == ForceOutput::uncaptured(),
    ensures
        kind matches TestEventKind::TestFinished { test_instance, run_statuses, .. } ==> {
            let output = report::event_output(reporter, kind, entries);
            let kept = report::kept_entries(reporter.final_status_level, kind);
            let styles = reporter.styles;
            let width = reporter.binary_id_width;
            &&& output == Seq::<u8>::empty() || output == encode_utf8(
                lines::status_line(styles, width, test_instance, run_statuses),
            )
            &&& kept.len() > 0 ==> report::entry_output(
                styles,
                width,
                reporter.final_status_level,
                kept[0],
            ) == encode_utf8(lines::final_status_line(styles, width, test_instance, run_statuses))
        },
{
    if let TestEventKind::TestFinished { test_instance, run_statuses, .. } = kind {
        law_never_means_never(reporter, test_instance, run_statuses);
        let line = lines::final_status_line(
            reporter.styles,
            reporter.binary_id_width,
            test_instance,
            run_statuses,
        );
        assert(encode_utf8(line) + Seq::<u8>::empty() =~= encode_utf8(line));
    }
}

/// True if a signal that ended an execution has a name of at most `len` characters or, without a
/// known name, a number of at most two.
pub open spec fn has_short_signal(result: ExecutionResult, len: nat) -> bool {
    match result {
        ExecutionResult::Fail { abort_status: Some(AbortStatus::UnixSignal { number, name }), .. } => {
            match name {
                Some(s) => s@.len() <= len,
                None => -9 <= number <= 99,
            }
        },
        _ => true,
    }
}

/// True if a status fits in the status column.
pub open spec fn fits(status: Seq<char>) -> bool {
    status.len() <= 12
}

/// The text for a result has at most 12 characters, so it fits in the status column, if a signal has
/// a name of at most nine. The short text has at most 6 if a signal has a name of at most six.
pub proof fn law_status_fits_in_column(result: ExecutionResult)
    ensures
        has_short_signal(result, 9) ==> fits(runner::status_text(result)),
        has_short_signal(result, 6) ==> runner::short_status_text(result).len() <= 6,
{
    reveal_strlit("SIG");
    reveal_strlit("ABORT SIG ");
    reveal_strlit("ABORT");
    reveal_strlit("FAIL + LEAK");
    reveal_strlit("FAIL");
    reveal_strlit("XFAIL");
    reveal_strlit("PASS");
    reveal_strlit("LEAK");
    reveal_strlit("TIMEOUT");
    reveal_strlit("SIG ");
    reveal_strlit("TMT");
    reveal_strlit("-");
    if let ExecutionResult::Fail {
        abort_status: Some(AbortStatus::UnixSignal { number, name: None }),
        ..
    } = result {
        reveal_with_fuel(text::decimal, 3);
        assert(-9 <= number <= 99 ==> text::signed_decimal(number as int).len() <= 2);
    }
}

/// True if a part of a line starts at the given column.
pub open spec fn at_column(line: Seq<char>, column: int, part: Seq<char>) -> bool {
    &&& column + part.len() <= line.len()
    &&& line.subrange(column, column + part.len()) == part
}

/// A part of a line starts where what is in front of it ends.
proof fn lemma_at_column(front: Seq<char>, part: Seq<char>, back: Seq<char>)
    ensures
        at_column(front + part + back, front.len() as int, part),
{
    let line = front + part + back;
    assert(line.subrange(front.len() as int, (front.len() + part.len()) as int) =~= part);
}

/// Without colors, a status of up to 12 characters takes up 13 columns, whatever it is.
pub proof fn law_status_column_is_fixed(status: Seq<char>)
    requires
        fits(status),
    ensures
        lines::status_cell(Style::Plain, status).len() == 13,
{
    reveal_strlit(" ");
}

/// The time takes up 12 columns, whether it is a time taken, a delay, a time that has passed so far
/// or nothing.
pub proof fn law_time_column_is_fixed(span: TimeSpan)
    ensures
        span.seconds_text@.len() <= 8 ==> lines::duration_text(span).len() == 12,
        span.seconds_text@.len() <= 7 ==> lines::duration_by_text(span).len() == 12,
        span.seconds_text@.len() <= 7 ==> lines::slow_duration_text(span).len() == 12,
        lines::empty_duration().len() == 12,
{
    reveal_strlit("[");
    reveal_strlit("s] ");
    reveal_strlit("by ");
    reveal_strlit("s ");
    reveal_strlit("[>");
    reveal_strlit("[         ] ");
}

/// A rendered time of up to 999 seconds takes up 12 columns, whether it is a time taken, a delay or a
/// time that has passed so far.
pub proof fn law_times_up_to_999_seconds_fit(span: TimeSpan)
    requires
        span.is_rendered(),
        span.nanos() <= 999 * 1_000_000_000,
    ensures
        lines::duration_text(span).len() == 12,
        lines::duration_by_text(span).len() == 12,
        lines::slow_duration_text(span).len() == 12,
{
    let millis = choose|millis: nat|
        {
            &&& span.seconds_text@ == #[trigger] text::thousandths(millis)
            &&& -1_000_000 < millis * 1_000_000 - span.nanos() < 1_000_000
        };
    assert(millis / 1000 <= 999);
    reveal_strlit(".");
    reveal_with_fuel(text::decimal, 3);
    law_time_column_is_fixed(span);
}

/// The column that tests start in.
pub open spec fn instance_column() -> int {
    25
}

/// Tests that are skipped and tests that start are shown in the same column.
pub proof fn law_skipped_and_started_tests_are_aligned(width: usize, instance: TestInstance)
    ensures
        at_column(
            lines::skip_line(Styles::plain(), width, instance),
            instance_column(),
            lines::instance_text(Styles::plain(), width, instance),
        ),
        at_column(
            report::test_started_text(Styles::plain(), width, instance),
            instance_column(),
            lines::instance_text(Styles::plain(), width, instance),
        ),
{
    reveal_strlit("SKIP");
    reveal_strlit("START");
    reveal_strlit("[         ] ");
    reveal_strlit("             ");
    let test = lines::instance_text(Styles::plain(), width, instance);
    law_status_column_is_fixed("SKIP"@);
    lemma_at_column(
        lines::status_cell(Style::Plain, "SKIP"@) + lines::empty_duration(),
        test,
        "\n"@,
    );
    lemma_at_column(text::pad_left("START"@, 12) + "             "@, test, "\n"@);
}

/// What is shown of up to nine attempts fits in the status column: how each came out, that it is
/// slow or about to be terminated, that there is a delay, and that the next one starts.
pub proof fn law_statuses_of_few_attempts_fit(retry_data: RetryData, result: ExecutionResult)
    requires
        retry_data.attempt <= 9,
        retry_data.total_attempts <= 9,
        has_short_signal(result, 6),
    ensures
        fits(lines::try_text(retry_data.attempt, runner::short_status_text(result))),
        fits(lines::try_text(retry_data.attempt, "PASS"@)),
        fits(lines::try_text(retry_data.attempt, "SLOW"@)),
        fits(lines::try_text(retry_data.attempt, "TRMNTG"@)),
        fits(lines::ratio_text("FLAKY "@, retry_data.attempt, retry_data.total_attempts)),
        fits(lines::ratio_text("RETRY "@, retry_data.attempt, retry_data.total_attempts)),
        fits(
            "DELAY "@ + text::decimal((retry_data.attempt + 1) as nat) + "/"@ + text::decimal(
                retry_data.total_attempts as nat,
            ),
        ),
{
    law_status_fits_in_column(result);
    reveal_strlit("TRY ");
    reveal_strlit(" ");
    reveal_strlit("PASS");
    reveal_strlit("SLOW");
    reveal_strlit("TRMNTG");
    reveal_strlit("FLAKY ");
    reveal_strlit("RETRY ");
    reveal_strlit("DELAY ");
    reveal_strlit("/");
    reveal_with_fuel(text::decimal, 3);
}

/// The status of a test when it is done.
pub open spec fn outcome_text(statuses: ExecutionStatuses) -> Seq<char> {
    let last = statuses.last_status;
    match statuses.description {
        ExecutionDescription::Success => if last.result is Leak {
            "LEAK"@
        } else {
            "PASS"@
        },
        ExecutionDescription::Flaky => lines::try_text(last.retry_data.attempt, "PASS"@),
        ExecutionDescription::Failure => failure_text(last),
    }
}

/// The status of a test at the end of the run.
pub open spec fn final_outcome_text(statuses: ExecutionStatuses) -> Seq<char> {
    let last = statuses.last_status;
    match statuses.description {
        ExecutionDescription::Success => if last.is_slow && last.result is Leak {
            "SLOW + LEAK"@
        } else if last.is_slow {
            "SLOW"@
        } else if last.result is Leak {
            "LEAK"@
        } else {
            "PASS"@
        },
        ExecutionDescription::Flaky => lines::ratio_text(
            "FLAKY "@,
            last.retry_data.attempt,
            last.retry_data.total_attempts,
        ),
        ExecutionDescription::Failure => failure_text(last),
    }
}

/// The status of a test that failed.
pub open spec fn failure_text(status: ExecuteStatus) -> Seq<char> {
    if status.retry_data.attempt == 1 {
        runner::status_text(status.result)
    } else {
        lines::try_text(status.retry_data.attempt, runner::short_status_text(status.result))
    }
}

/// A line whose status and time fit in their columns shows its test in the column for tests.
proof fn lemma_aligned(
    cell: Seq<char>,
    time: Seq<char>,
    width: usize,
    instance: TestInstance,
    back: Seq<char>,
)
    requires
        cell.len() == 13,
        time.len() == 12,
    ensures
        at_column(
            cell + time + lines::instance_text(Styles::plain(), width, instance) + back,
            instance_column(),
            lines::instance_text(Styles::plain(), width, instance),
        ),
{
    lemma_at_column(cell + time, lines::instance_text(Styles::plain(), width, instance), back);
}

/// Tests that finished are shown in the same column, both when they are done and at the end of the
/// run, if their time and their status fit.
pub proof fn law_finished_tests_are_aligned(
    width: usize,
    instance: TestInstance,
    statuses: ExecutionStatuses,
)
    requires
        statuses.last_status.time_taken.seconds_text@.len() <= 8,
    ensures
        fits(outcome_text(statuses)) ==> at_column(
            lines::status_line(Styles::plain(), width, instance, statuses),
            instance_column(),
            lines::instance_text(Styles::plain(), width, instance),
        ),
        fits(final_outcome_text(statuses)) ==> at_column(
            lines::final_status_line(Styles::plain(), width, instance, statuses),
            instance_column(),
            lines::instance_text(Styles::plain(), width, instance),
        ),
{
    let styles = Styles::plain();
    let last = statuses.last_status;
    let test = lines::instance_text(styles, width, instance);
    let time = lines::duration_text(last.time_taken);
    let back = "\n"@ + lines::abort_message_line(styles, last.result);
    law_time_column_is_fixed(last.time_taken);
    let cell = lines::outcome_cell(styles, statuses);
    assert(cell == lines::status_cell(Style::Plain, outcome_text(statuses)));
    assert(cell + time + test + back =~= lines::status_line(styles, width, instance, statuses));
    if fits(outcome_text(statuses)) {
        law_status_column_is_fixed(outcome_text(statuses));
        lemma_aligned(cell, time, width, instance, back);
    }
    let final_cell = lines::final_outcome_cell(styles, statuses);
    assert(final_cell == lines::status_cell(Style::Plain, final_outcome_text(statuses)));
    assert(final_cell + time + test + back =~= lines::final_status_line(
        styles,
        width,
        instance,
        statuses,
    ));
    if fits(final_outcome_text(statuses)) {
        law_status_column_is_fixed(final_outcome_text(statuses));
        lemma_aligned(final_cell, time, width, instance, back);
    }
}

/// Tests that are retried are shown in the same column, if the time and the status fit: when an
/// attempt failed, when there is a delay, and when the next attempt starts.
pub proof fn law_retried_tests_are_aligned(
    width: usize,
    instance: TestInstance,
    status: ExecuteStatus,
    delay: TimeSpan,
)
    ensures
        status.time_taken.seconds_text@.len() <= 8 && fits(
            lines::try_text(status.retry_data.attempt, runner::short_status_text(status.result)),
        ) ==> at_column(
            report::attempt_failed_text(Styles::plain(), width, instance, status),
            instance_column(),
            lines::instance_text(Styles::plain(), width, instance),
        ),
        delay.seconds_text@.len() <= 7 && fits(
            "DELAY "@ + text::decimal((status.retry_data.attempt + 1) as nat) + "/"@
                + text::decimal(status.retry_data.total_attempts as nat),
        ) ==> at_column(
            report::delay_text(Styles::plain(), width, instance, status.retry_data, delay),
            instance_column(),
            lines::instance_text(Styles::plain(), width, instance),
        ),
        fits(
            lines::ratio_text(
                "RETRY "@,
                status.retry_data.attempt,
                status.retry_data.total_attempts,
            ),
        ) ==> at_column(
            report::retry_started_text(Styles::plain(), width, instance, status.retry_data),
            instance_column(),
            lines::instance_text(Styles::plain(), width, instance),
        ),
{
    let retry_data = status.retry_data;
    let failed = lines::try_text(retry_data.attempt, runner::short_status_text(status.result));
    let delayed = "DELAY "@ + text::decimal((retry_data.attempt + 1) as nat) + "/"@ + text::decimal(
        retry_data.total_attempts as nat,
    );
    let retry = lines::ratio_text("RETRY "@, retry_data.attempt, retry_data.total_attempts);
    law_time_column_is_fixed(status.time_taken);
    law_time_column_is_fixed(delay);
    if status.time_taken.seconds_text@.len() <= 8 && fits(failed) {
        law_status_column_is_fixed(failed);
        let cell = lines::status_cell(Style::Plain, failed);
        lemma_aligned(cell, lines::duration_text(status.time_taken), width, instance, "\n"@);
    }
    if delay.seconds_text@.len() <= 7 && fits(delayed) {
        law_status_column_is_fixed(delayed);
        let cell = lines::status_cell(Style::Plain, delayed);
        lemma_aligned(cell, lines::duration_by_text(delay), width, instance, "\n"@);
    }
    if fits(retry) {
        law_status_column_is_fixed(retry);
        let cell = lines::status_cell(Style::Plain, retry);
        lemma_aligned(cell, lines::empty_duration(), width, instance, "\n"@);
    }
}

/// Tests that are slow are shown in the same column, if their status is shown, and it and the time
/// fit.
pub proof fn law_slow_tests_are_aligned(
    width: usize,
    level: StatusLevel,
    instance: TestInstance,
    retry_data: RetryData,
    elapsed: TimeSpan,
    will_terminate: bool,
)
    requires
        // The status is in the line and takes up no more than its column.
        report::test_slow_cell(Styles::plain(), level, retry_data, will_terminate).len() == 13,
        elapsed.seconds_text@.len() <= 7,
    ensures
        at_column(
            report::test_slow_text(
                Styles::plain(),
                width,
                level,
                instance,
                retry_data,
                elapsed,
                will_terminate,
            ),
            instance_column(),
            lines::instance_text(Styles::plain(), width, instance),
        ),
{
    let cell = report::test_slow_cell(Styles::plain(), level, retry_data, will_terminate);
    law_time_column_is_fixed(elapsed);
    lemma_aligned(cell, lines::slow_duration_text(elapsed), width, instance, "\n"@);
}

/// The header of test output starts with a newline, and shows its test in the same column as the
/// other lines.
pub proof fn law_output_headers_are_aligned(
    width: usize,
    label: Seq<char>,
    retry_data: RetryData,
    instance: TestInstance,
)
    requires
        label == "STDOUT:"@ || label == "STDERR:"@,
        lines::attempt_width(retry_data) <= 14,
    ensures
        at_column(
            lines::test_output_header(
                Styles::plain(),
                width,
                Style::Plain,
                label,
                retry_data,
                instance,
            ),
            1 + instance_column(),
            lines::instance_text(Styles::plain(), width, instance),
        ),
{
    reveal_strlit("STDOUT:");
    reveal_strlit("STDERR:");
    reveal_strlit("\n");
    reveal_strlit("--- ");
    reveal_strlit("TRY");
    reveal_strlit(" ");
    reveal_strlit("");
    let test = lines::instance_text(Styles::plain(), width, instance);
    let front = "\n"@ + "--- "@ + lines::attempt_text(retry_data, Style::Plain) + text::pad_right(
        label,
        (21 - lines::attempt_width(retry_data)) as nat,
    );
    let back = " ---"@ + "\n"@;
    assert(front.len() == 26);
    lemma_at_column(front, test, back);
    assert(front + test + back =~= lines::test_output_header(
        Styles::plain(),
        width,
        Style::Plain,
        label,
        retry_data,
        instance,
    ));
}

} // verus!
