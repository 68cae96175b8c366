//! The counts of a run, in words.

use crate::runner::RunStats;
use crate::style::{Style, Styles};
use crate::text;
use vstd::prelude::*;
use vstd::string::*;

verus! {

/// The singular for one, the plural for any other number.
pub open spec fn by_count(count: usize, singular: Seq<char>, plural: Seq<char>) -> Seq<char> {
    if count == 1 {
        singular
    } else {
        plural
    }
}

/// Returns the noun for a number of setup scripts.
pub fn setup_scripts_str(count: usize) -> (r: &'static str)
    ensures
        r@ == by_count(count, "setup script"@, "setup scripts"@),
{
    if count == 1 {
        "setup script"
    } else {
        "setup scripts"
    }
}

/// Returns the noun for a number of tests.
pub fn tests_str(count: usize) -> (r: &'static str)
    ensures
        r@ == by_count(count, "test"@, "tests"@),
{
    if count == 1 {
        "test"
    } else {
        "tests"
    }
}

/// Returns the noun for a number of test binaries.
pub fn binaries_str(count: usize) -> (r: &'static str)
    ensures
        r@ == by_count(count, "binary"@, "binaries"@),
{
    if count == 1 {
        "binary"
    } else {
        "binaries"
    }
}

/// A number in the given style.
pub open spec fn styled_number(style: Style, n: usize) -> Seq<char> {
    style.painted(text::decimal(n as nat))
}

/// Renders a number in the given style.
pub fn styled_number_string(style: Style, n: usize) -> (r: String)
    ensures
        r@ == styled_number(style, n),
{
    let digits = text::decimal_string(n as u64);
    style.paint(digits.as_str())
}

/// A count and what was counted.
pub open spec fn counted(styles: Styles, n: usize, style: Style, word: Seq<char>) -> Seq<char> {
    styled_number(styles.count, n) + " "@ + style.painted(word)
}

/// Renders a count and what was counted.
fn counted_string(styles: &Styles, n: usize, style: Style, word: &str) -> (r: String)
    ensures
        r@ == counted(*styles, n, style, word@),
{
    let mut s = styled_number_string(styles.count, n);
    s.append(" ");
    let styled = style.paint(word);
    s.append(styled.as_str());
    s
}

/// `counted` for a count that is worth a mention, nothing for zero.
pub open spec fn remark(styles: Styles, n: usize, word: Seq<char>) -> Seq<Seq<char>> {
    if n > 0 {
        seq![counted(styles, n, styles.skip, word)]
    } else {
        seq![]
    }
}

/// The remarks about the tests that passed.
pub open spec fn pass_remarks(stats: RunStats, styles: Styles) -> Seq<Seq<char>> {
    remark(styles, stats.passed_slow, "slow"@) + remark(styles, stats.flaky, "flaky"@) + remark(
        styles,
        stats.leaky,
        "leaky"@,
    )
}

/// The remarks about the tests that passed, in parentheses if there are any.
pub open spec fn pass_remarks_text(stats: RunStats, styles: Styles) -> Seq<char> {
    let remarks = pass_remarks(stats, styles);
    if remarks.len() > 0 {
        " ("@ + text::joined(remarks, ", "@) + ")"@
    } else {
        ""@
    }
}

/// The number of tests with one kind of failure, if there are any.
pub open spec fn failure_count(styles: Styles, n: usize, word: Seq<char>) -> Seq<char> {
    if n > 0 {
        counted(styles, n, styles.fail, word) + ", "@
    } else {
        ""@
    }
}

/// The counts of a run, in words.
pub open spec fn summary_text(stats: RunStats, styles: Styles) -> Seq<char> {
    counted(styles, stats.passed, styles.pass, "passed"@) + pass_remarks_text(stats, styles) + ", "@
        + failure_count(styles, stats.failed, "failed"@) + failure_count(
        styles,
        stats.exec_failed,
        "exec failed"@,
    ) + failure_count(styles, stats.timed_out, "timed out"@) + counted(
        styles,
        stats.skipped,
        styles.skip,
        "skipped"@,
    )
}

/// Adds the remark for a count to a list of remarks.
fn add_remark(remarks: &mut text::CommaList, styles: &Styles, n: usize, word: &str)
    requires
        old(remarks).wf(),
    ensures
        final(remarks).wf(),
        final(remarks)@ == old(remarks)@ + remark(*styles, n, word@),
{
    if n > 0 {
        let counted = counted_string(styles, n, styles.skip, word);
        remarks.push(counted.as_str());
    }
    assert(remarks@ =~= old(remarks)@ + remark(*styles, n, word@));
}

/// Renders the remarks about the tests that passed.
fn pass_remarks_string(stats: &RunStats, styles: &Styles) -> (r: String)
    ensures
        r@ == pass_remarks_text(*stats, *styles),
{
    let mut remarks = text::CommaList::new();
    add_remark(&mut remarks, styles, stats.passed_slow, "slow");
    add_remark(&mut remarks, styles, stats.flaky, "flaky");
    add_remark(&mut remarks, styles, stats.leaky, "leaky");
    assert(remarks@ =~= pass_remarks(*stats, *styles));
    if remarks.is_empty() {
        "".to_owned()
    } else {
        let mut s = " (".to_owned();
        s.append(remarks.as_str());
        s.append(")");
        s
    }
}

/// Renders the number of tests with one kind of failure.
fn failure_count_string(styles: &Styles, n: usize, word: &str) -> (r: String)
    ensures
        r@ == failure_count(*styles, n, word@),
{
    if n > 0 {
        let mut s = counted_string(styles, n, styles.fail, word);
        s.append(", ");
        s
    } else {
        "".to_owned()
    }
}

/// Writes the counts of a run, in words.
pub fn write_summary_str(run_stats: &RunStats, styles: &Styles, out: &mut String)
    ensures
        final(out)@ == old(out)@ + summary_text(*run_stats, *styles),
{
    let mut s = counted_string(styles, run_stats.passed, styles.pass, "passed");
    let remarks = pass_remarks_string(run_stats, styles);
    s.append(remarks.as_str());
    s.append(", ");
    let failed = failure_count_string(styles, run_stats.failed, "failed");
    s.append(failed.as_str());
    let exec_failed = failure_count_string(styles, run_stats.exec_failed, "exec failed");
    s.append(exec_failed.as_str());
    let timed_out = failure_count_string(styles, run_stats.timed_out, "timed out");
    s.append(timed_out.as_str());
    let skipped = counted_string(styles, run_stats.skipped, styles.skip, "skipped");
    s.append(skipped.as_str());
    out.append(s.as_str());
}

} // verus!
