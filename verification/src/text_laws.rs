//! What holds of the texts that reports are made of.

use crate::builder;
use crate::final_output;
use crate::final_output::{Entry, EntryKey, FinalOutput};
use crate::levels;
use crate::levels::{CancelReason, FinalStatusLevel, StatusLevel, TestOutputDisplay};
use crate::list;
use crate::list::{RustTestSuite, TestInstance};
use crate::runner;
use crate::runner::{AbortStatus, ExecutionResult, RetryData, TimeSpan};
use crate::shell;
use crate::style::{ListStyles, Style, Styles};
use crate::text;
use vstd::prelude::*;
use vstd::utf8::*;

verus! {

/// The number that a sequence of decimal digits stands for.
pub open spec fn read_decimal(digits: Seq<char>) -> int
    decreases digits.len(),
{
    if digits.len() == 0 {
        0
    } else {
        10 * read_decimal(digits.drop_last()) + (digits.last() as int - '0' as int)
    }
}

/// Reading a rendered number gives the number back. There are digits only, and no leading zeros.
pub proof fn law_numbers_read_back(n: nat)
    ensures
        read_decimal(text::decimal(n)) == n,
        text::decimal(n).len() > 0,
        forall|i: int|
            0 <= i < text::decimal(n).len() ==> '0' as int <= #[trigger] text::decimal(n)[i] as int
                <= '9' as int,
        n > 0 ==> text::decimal(n)[0] != '0',
    decreases n,
{
    reveal_with_fuel(read_decimal, 2);
    if n >= 10 {
        law_numbers_read_back(n / 10);
        assert(text::decimal(n).drop_last() =~= text::decimal(n / 10));
    } else {
        assert(text::decimal(n).drop_last() =~= Seq::<char>::empty());
    }
}

/// A negative number is a minus sign and the number without its sign.
pub proof fn law_signs_come_first(n: nat)
    ensures
        text::signed_decimal(n as int) == text::decimal(n),
        n > 0 ==> text::signed_decimal(-n) == seq!['-'] + text::decimal(n),
{
    reveal_strlit("-");
    assert("-"@ =~= seq!['-']);
}

/// Right-aligned text is the text behind as many spaces as the column has left. It is never cut.
pub proof fn law_right_alignment(s: Seq<char>, width: nat)
    ensures
        ({
            let r = text::pad_left(s, width);
            let fill = r.len() - s.len();
            &&& r.len() == if s.len() < width {
                width
            } else {
                s.len()
            }
            &&& r.skip(fill) == s
            &&& forall|i: int| 0 <= i < fill ==> #[trigger] r[i] == ' '
        }),
{
}

/// Left-aligned text is the text in front of as many spaces as the column has left. It is never cut.
pub proof fn law_left_alignment(s: Seq<char>, width: nat)
    ensures
        ({
            let r = text::pad_right(s, width);
            &&& r.len() == if s.len() < width {
                width
            } else {
                s.len()
            }
            &&& r.take(s.len() as int) == s
            &&& forall|i: int| s.len() <= i < r.len() ==> #[trigger] r[i] == ' '
        }),
{
}

/// Whatever the text is, a style puts the same sequence in front of it and the reset sequence behind
/// it, and leaves the text in between alone. The plain style adds nothing.
pub proof fn law_styles_wrap_text(style: Style, s: Seq<char>)
    ensures
        ({
            let empty = style.painted(Seq::<char>::empty());
            let front = empty.take(empty.len() - 4);
            let back = seq!['\x1b', '[', '0', 'm'];
            if style is Plain {
                style.painted(s) == s
            } else {
                style.painted(s) == front + s + back && front[0] == '\x1b' && front[1] == '['
                    && front.last() == 'm'
            }
        }),
{
    reveal_strlit("\x1b[0m");
    reveal_strlit("\x1b[1m");
    reveal_strlit("\x1b[32m");
    reveal_strlit("\x1b[35m");
    reveal_strlit("\x1b[36m");
    reveal_strlit("\x1b[31;1m");
    reveal_strlit("\x1b[32;1m");
    reveal_strlit("\x1b[33;1m");
    reveal_strlit("\x1b[34;1m");
    reveal_strlit("\x1b[35;1m");
    let back = seq!['\x1b', '[', '0', 'm'];
    let empty = style.painted(Seq::<char>::empty());
    let front = empty.take(empty.len() - 4);
    assert("\x1b[0m"@ =~= back);
    if !(style is Plain) {
        assert(style.painted(s) =~= front + s + back);
    }
}

/// Two styles that paint a text alike are the same style.
pub proof fn law_styles_differ(a: Style, b: Style, s: Seq<char>)
    requires
        a.painted(s) == b.painted(s),
        s.len() > 0,
        s[0] != '\x1b',
    ensures
        a == b,
{
    reveal_strlit("\x1b[0m");
    reveal_strlit("\x1b[1m");
    reveal_strlit("\x1b[32m");
    reveal_strlit("\x1b[35m");
    reveal_strlit("\x1b[36m");
    reveal_strlit("\x1b[31;1m");
    reveal_strlit("\x1b[32;1m");
    reveal_strlit("\x1b[33;1m");
    reveal_strlit("\x1b[34;1m");
    reveal_strlit("\x1b[35;1m");
    let x = a.painted(s);
    let y = b.painted(s);
    assert(x.len() == y.len());
    assert(x[0] == y[0] && x[2] == y[2] && x[3] == y[3] && x[4] == y[4]);
}

/// Without colors everything is plain. With colors numbers are bold, what passed is green, what is
/// retried is magenta, what failed is red, and what is skipped is yellow.
pub proof fn law_styles_of_reports()
    ensures
        ({
            let s = Styles::plain();
            &&& !s.is_colorized
            &&& s.count is Plain && s.pass is Plain && s.retry is Plain && s.fail is Plain
            &&& s.pass_output is Plain && s.retry_output is Plain && s.fail_output is Plain
            &&& s.skip is Plain && s.script_id is Plain
            &&& s.list_styles.binary_id is Plain && s.list_styles.test_name is Plain
            &&& s.list_styles.module_prefix is Plain
        }),
        ({
            let s = Styles::colored();
            &&& s.is_colorized
            &&& s.count is Bold && s.pass is GreenBold && s.retry is MagentaBold
            &&& s.fail is RedBold && s.pass_output is Green && s.retry_output is Magenta
            &&& s.fail_output is Magenta && s.skip is YellowBold && s.script_id is BlueBold
            &&& s.list_styles.binary_id is MagentaBold && s.list_styles.test_name is BlueBold
            &&& s.list_styles.module_prefix is Cyan
        }),
{
}

/// True if `::` stands at a position of a name.
pub open spec fn is_separated_at(name: Seq<char>, i: int) -> bool {
    0 <= i && i + 1 < name.len() && name[i] == ':' && name[i + 1] == ':'
}

/// The last `::` is where one stands and none stands behind it.
proof fn lemma_last_separator(name: Seq<char>)
    ensures
        match list::last_separator(name) {
            Some(i) => is_separated_at(name, i) && forall|j: int|
                i < j ==> !#[trigger] is_separated_at(name, j),
            None => forall|j: int| !#[trigger] is_separated_at(name, j),
        },
    decreases name.len(),
{
    if name.len() >= 2 && !(name[name.len() - 2] == ':' && name[name.len() - 1] == ':') {
        let shorter = name.drop_last();
        lemma_last_separator(shorter);
        assert forall|j: int| #[trigger] is_separated_at(name, j) implies is_separated_at(
            shorter,
            j,
        ) by {}
        if let Some(i) = list::last_separator(shorter) {
            assert(is_separated_at(name, i));
        }
    }
}

/// A test name is parted at its last `::`: what is in front of it and it itself are in the style of
/// module paths, and what is behind it in that of test names. A name without any is in the latter.
pub proof fn law_names_are_parted_at_the_last_separator(
    name: Seq<char>,
    styles: ListStyles,
    i: int,
)
    ensures
        (forall|j: int| !#[trigger] is_separated_at(name, j)) ==> list::styled_test_name(
            name,
            styles,
        ) == styles.test_name.painted(name),
        is_separated_at(name, i) && (forall|j: int|
            i < j ==> !#[trigger] is_separated_at(name, j)) ==> list::styled_test_name(name, styles)
            == styles.module_prefix.painted(name.take(i)) + styles.module_prefix.painted(
            seq![':', ':'],
        ) + styles.test_name.painted(name.skip(i + 2)),
{
    lemma_last_separator(name);
    reveal_strlit("::");
    assert("::"@ =~= seq![':', ':']);
    if is_separated_at(name, i) && forall|j: int| i < j ==> !#[trigger] is_separated_at(name, j) {
        let k = list::last_separator(name)->0;
        assert(is_separated_at(name, k));
        assert(k == i);
    }
}

/// Byte strings are ordered by the first byte in which they differ and, where they do not differ, by
/// their length.
pub proof fn law_bytes_are_ordered(a: Seq<u8>, b: Seq<u8>, k: int)
    requires
        0 <= k <= a.len(),
        k <= b.len(),
        a.take(k) == b.take(k),
    ensures
        k == a.len() ==> list::bytes_le(a, b),
        k == b.len() && k < a.len() ==> !list::bytes_le(a, b),
        k < a.len() && k < b.len() && a[k] != b[k] ==> list::bytes_le(a, b) == (a[k] < b[k]),
    decreases k,
{
    if k > 0 {
        assert(a[0] == a.take(k)[0] && b[0] == b.take(k)[0]);
        let x = a.drop_first();
        let y = b.drop_first();
        assert(x.take(k - 1) =~= a.take(k).drop_first());
        assert(y.take(k - 1) =~= b.take(k).drop_first());
        law_bytes_are_ordered(x, y, k - 1);
    }
}

/// A command is joined of its name and its arguments, in order.
pub proof fn law_commands_are_name_and_arguments(command: &str, args: &[String], i: int)
    ensures
        ({
            let words = shell::command_words(command, args);
            &&& words.len() == args@.len() + 1
            &&& words[0] == command@
            &&& 0 <= i < args@.len() ==> words[i + 1] == args@[i]@
        }),
{
}

/// The status levels, from the least to the most output.
pub proof fn law_status_levels_are_ordered()
    ensures
        StatusLevel::NoOutput.rank() < StatusLevel::Fail.rank() < StatusLevel::Retry.rank()
            < StatusLevel::Slow.rank() < StatusLevel::Leak.rank() < StatusLevel::Pass.rank()
            < StatusLevel::Skip.rank() < StatusLevel::All.rank(),
{
}

/// The final status levels, from the least to the most output: skipped tests are prioritized over
/// passing ones.
pub proof fn law_final_status_levels_are_ordered()
    ensures
        FinalStatusLevel::NoOutput.rank() < FinalStatusLevel::Fail.rank()
            < FinalStatusLevel::Flaky.rank() < FinalStatusLevel::Slow.rank()
            < FinalStatusLevel::Skip.rank() < FinalStatusLevel::Leak.rank()
            < FinalStatusLevel::Pass.rank() < FinalStatusLevel::All.rank(),
{
}

/// The cancel reasons, from the least to the most severe. A run that is not canceled is below all.
pub proof fn law_cancel_reasons_are_ordered()
    ensures
        levels::cancel_severity(None) < CancelReason::SetupScriptFailure.severity()
            < CancelReason::TestFailure.severity() < CancelReason::ReportError.severity()
            < CancelReason::Signal.severity() < CancelReason::Interrupt.severity(),
{
}

/// A cancel status becomes a new reason unless it is more severe. It does so in particular where the
/// run was not canceled, and a signal is never given up for anything but an interrupt.
pub proof fn law_escalation_picks_the_more_severe(old: CancelReason, new: CancelReason)
    ensures
        levels::escalate(None, new) == Some(new),
        levels::escalate(Some(old), new) == Some(old) || levels::escalate(Some(old), new) == Some(
            new,
        ),
        levels::escalate(Some(old), new) == levels::escalate(Some(new), old),
        old is Interrupt ==> levels::escalate(Some(old), new) == Some(old),
        old is Signal && !(new is Interrupt) ==> levels::escalate(Some(old), new) == Some(old),
        old is SetupScriptFailure ==> levels::escalate(Some(old), new) == Some(new),
        old is TestFailure && !(new is SetupScriptFailure) ==> levels::escalate(Some(old), new)
            == Some(new),
{
}

/// Only signals and interrupts count as such.
pub proof fn law_signals_and_interrupts_stop_runs(status: Option<CancelReason>)
    ensures
        levels::stopped_by_signal(status) <==> status == Some(CancelReason::Signal) || status
            == Some(CancelReason::Interrupt),
{
}

/// The two displays that show output right away, and the two that show it at the end.
pub proof fn law_displays(display: TestOutputDisplay)
    ensures
        display.shows_immediately() <==> display == TestOutputDisplay::Immediate || display
            == TestOutputDisplay::ImmediateFinal,
        display.shows_finally() <==> display == TestOutputDisplay::Final || display
            == TestOutputDisplay::ImmediateFinal,
{
}

/// Only executions that passed, leaky or not, are successes.
pub proof fn law_successes(result: ExecutionResult)
    ensures
        result.success() <==> result == ExecutionResult::Pass || result == ExecutionResult::Leak,
{
}

/// An attempt is the last one if its number is the number of attempts or beyond.
pub proof fn law_last_attempts(retry_data: RetryData)
    ensures
        retry_data.last_attempt() <==> !(retry_data.attempt < retry_data.total_attempts),
{
}

/// Time passes in a span if and only if it has any nanoseconds.
pub proof fn law_zero_spans(span: TimeSpan)
    ensures
        span.zero() <==> span.nanos() == 0,
{
}

/// Whether something was leaked is said only of a failure without an abort, and only by the long
/// text.
pub proof fn law_leaks_are_said_of_plain_failures(a: ExecutionResult, b: ExecutionResult)
    requires
        a matches ExecutionResult::Fail { abort_status: x, leaked: l } && (
        b matches ExecutionResult::Fail { abort_status: y, leaked: m } && x == y && l && !m),
    ensures
        runner::short_status_text(a) == runner::short_status_text(b),
        a->abort_status is Some ==> runner::status_text(a) == runner::status_text(b),
        a->abort_status is None ==> runner::status_text(a) == runner::status_text(b) + " + LEAK"@
            && runner::status_text(b) == runner::short_status_text(b),
{
    reveal_strlit("FAIL");
    reveal_strlit(" + LEAK");
    reveal_strlit("FAIL + LEAK");
    assert("FAIL"@ + " + LEAK"@ =~= "FAIL + LEAK"@);
}

/// The short text names a signal, or gives its number. The long one puts more in front of that.
pub proof fn law_signals_are_named(
    result: ExecutionResult,
    number: i32,
    name: Option<&'static str>,
    leaked: bool,
)
    requires
        result == (ExecutionResult::Fail {
            abort_status: Some(AbortStatus::UnixSignal { number, name }),
            leaked,
        }),
    ensures
        name matches Some(s) ==> runner::short_status_text(result) == s@ && runner::status_text(
            result,
        ) == "SIG"@ + s@,
        name is None ==> runner::short_status_text(result) == "SIG "@ + text::signed_decimal(
            number as int,
        ) && runner::status_text(result) == "ABORT "@ + runner::short_status_text(result),
{
    reveal_strlit("ABORT ");
    reveal_strlit("SIG ");
    reveal_strlit("ABORT SIG ");
    assert("ABORT "@ + "SIG "@ =~= "ABORT SIG "@);
    let sig = text::signed_decimal(number as int);
    assert("ABORT "@ + ("SIG "@ + sig) =~= "ABORT "@ + "SIG "@ + sig);
}

/// The texts for all other results. Only timeouts have a shorter one.
pub proof fn law_results_are_named(result: ExecutionResult)
    ensures
        result is Pass ==> runner::status_text(result) == "PASS"@,
        result is Leak ==> runner::status_text(result) == "LEAK"@,
        result is ExecFail ==> runner::status_text(result) == "XFAIL"@,
        result is Timeout ==> runner::status_text(result) == "TIMEOUT"@
            && runner::short_status_text(result) == "TMT"@,
        result matches ExecutionResult::Fail { abort_status: None, leaked: false }
            ==> runner::status_text(result) == "FAIL"@,
        result matches ExecutionResult::Fail {
            abort_status: Some(AbortStatus::WindowsNtStatus { .. }),
            ..
        } ==> runner::status_text(result) == "ABORT"@ && runner::short_status_text(result)
            == "ABORT"@,
        !(result is Timeout) && !(result is Fail) ==> runner::short_status_text(result)
            == runner::status_text(result),
{
}

/// Skipped tests have the level for skipped tests at the end of the run, and others their own.
pub proof fn law_levels_at_the_end(entry: Entry)
    ensures
        entry.1 is Skipped ==> entry.1.level() == FinalStatusLevel::Skip,
        entry.1 matches FinalOutput::Executed { run_statuses, .. } ==> entry.1.level()
            == run_statuses.final_status_level,
{
}

/// Entries have the same key if and only if they have the same level, binary ID and name.
pub proof fn law_keys_tell_tests_apart(a: Entry, b: Entry)
    ensures
        final_output::key_of(a) == final_output::key_of(b) <==> {
            &&& a.1.level() == b.1.level()
            &&& encode_utf8(a.0.suite_info.binary_id@) == encode_utf8(b.0.suite_info.binary_id@)
            &&& encode_utf8(a.0.name@) == encode_utf8(b.0.name@)
        },
{
}

/// Which of two entries comes first: the one of the higher level, then the one whose binary ID comes
/// first, then the one whose name does.
pub proof fn law_order_of_entries(a: Entry, b: Entry)
    ensures
        ({
            let before = final_output::key_le(final_output::key_of(a), final_output::key_of(b));
            let binary_a = encode_utf8(a.0.suite_info.binary_id@);
            let binary_b = encode_utf8(b.0.suite_info.binary_id@);
            let name_a = encode_utf8(a.0.name@);
            let name_b = encode_utf8(b.0.name@);
            &&& a.1.level().rank() > b.1.level().rank() ==> before
            &&& a.1.level().rank() < b.1.level().rank() ==> !before
            &&& a.1.level() == b.1.level() && binary_a != binary_b ==> before == list::bytes_le(
                binary_a,
                binary_b,
            )
            &&& a.1.level() == b.1.level() && binary_a == binary_b ==> before == list::bytes_le(
                name_a,
                name_b,
            )
        }),
{
}

/// Sorting is stable: entries with the same level, binary ID and name follow each other as they did,
/// and no others come between them in the selection of those.
pub proof fn law_sorting_is_stable(before: Seq<Entry>, after: Seq<Entry>, key: EntryKey)
    requires
        final_output::is_stable_sort(before, after),
    ensures
        before.filter(|e: Entry| final_output::key_of(e) == key) == after.filter(
            |e: Entry| final_output::key_of(e) == key,
        ),
{
    assert(final_output::with_key(after, key) == final_output::with_key(before, key));
}

/// The column for binary IDs is as wide as the longest ID, in bytes, of a binary with tests.
pub proof fn law_binary_ids_fit(suites: Seq<RustTestSuite>, width: usize, i: int)
    requires
        builder::fits_binary_ids(suites, width),
    ensures
        0 <= i < suites.len() && suites[i].test_count > 0 ==> encode_utf8(
            suites[i].binary_id@,
        ).len() <= width,
        width > 0 ==> exists|j: int|
            0 <= j < suites.len() && (#[trigger] suites[j]).test_count > 0 && encode_utf8(
                suites[j].binary_id@,
            ).len() == width,
        (forall|j: int| 0 <= j < suites.len() ==> (#[trigger] suites[j]).test_count == 0) ==> width
            == 0,
{
}

/// Tests are told apart by their binary ID and their name.
pub proof fn law_sort_keys(t: TestInstance)
    ensures
        t.sort_key().0 == encode_utf8(t.suite_info.binary_id@),
        t.sort_key().1 == encode_utf8(t.name@),
{
}

} // verus!
