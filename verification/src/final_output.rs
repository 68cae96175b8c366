//! What is kept of each test for the end of the run, and the order it is shown in.

use crate::levels::{FinalStatusLevel, TestOutputDisplay};
use crate::list;
use crate::list::{Comparison, MismatchReason, TestInstance};
use crate::runner::ExecutionStatuses;
use vstd::prelude::*;
use vstd::string::*;
use vstd::utf8::*;

verus! {

/// What is kept of a test for the end of the run.
#[derive(Debug)]
pub enum FinalOutput {
    /// The test was skipped.
    Skipped(MismatchReason),
    /// The test was executed.
    Executed {
        /// All the attempts at the test.
        run_statuses: ExecutionStatuses,
        /// When to display the output of the test.
        test_output_display: TestOutputDisplay,
    },
}

impl FinalOutput {
    /// The level at which this is shown at the end of the run.
    pub open spec fn level(self) -> FinalStatusLevel {
        match self {
            FinalOutput::Skipped(_) => FinalStatusLevel::Skip,
            FinalOutput::Executed { run_statuses, .. } => run_statuses.final_status_level,
        }
    }

    /// Returns the level at which this is shown at the end of the run.
    pub fn final_status_level(&self) -> (r: FinalStatusLevel)
        ensures
            r == self.level(),
    {
        match self {
            FinalOutput::Skipped(_) => FinalStatusLevel::Skip,
            FinalOutput::Executed { run_statuses, .. } => run_statuses.final_status_level,
        }
    }
}

/// A test and what is kept of it.
pub type Entry<'a> = (TestInstance<'a>, FinalOutput);

/// What entries are sorted by.
#[verifier::ext_equal]
pub struct EntryKey {
    /// The position of the entry's level.
    pub level: int,
    /// The binary ID, as a byte string.
    pub binary_id: Seq<u8>,
    /// The name of the test, as a byte string.
    pub name: Seq<u8>,
}

/// What an entry is sorted by.
pub open spec fn key_of(entry: Entry) -> EntryKey {
    EntryKey {
        level: entry.1.level().rank(),
        binary_id: entry.0.sort_key().0,
        name: entry.0.sort_key().1,
    }
}

/// The order of keys: the highest level first, then by binary ID, then by name.
pub open spec fn key_le(a: EntryKey, b: EntryKey) -> bool {
    if a.level != b.level {
        a.level > b.level
    } else if a.binary_id != b.binary_id {
        list::bytes_le(a.binary_id, b.binary_id)
    } else {
        list::bytes_le(a.name, b.name)
    }
}

/// True if no entry comes before one that it should follow.
pub open spec fn in_order(entries: Seq<Entry>) -> bool {
    forall|i: int, j: int|
        0 <= i <= j < entries.len() ==> key_le(key_of(#[trigger] entries[i]), key_of(
            #[trigger] entries[j],
        ))
}

/// The entries that have the given key, as they follow each other.
pub open spec fn with_key(entries: Seq<Entry>, key: EntryKey) -> Seq<Entry> {
    entries.filter(|e: Entry| key_of(e) == key)
}

/// True if `after` holds the entries of `before` in order, and entries with the same key follow
/// each other as they did.
pub open spec fn is_stable_sort(before: Seq<Entry>, after: Seq<Entry>) -> bool {
    &&& in_order(after)
    &&& forall|key: EntryKey| #[trigger] with_key(after, key) == with_key(before, key)
}

/// Any two keys are ordered one way or the other.
pub proof fn lemma_key_le_total(a: EntryKey, b: EntryKey)
    ensures
        key_le(a, b) || key_le(b, a),
{
    list::lemma_bytes_le_total(a.binary_id, b.binary_id);
    list::lemma_bytes_le_total(a.name, b.name);
}

/// Keys that come before each other are the same.
pub proof fn lemma_key_le_antisymmetric(a: EntryKey, b: EntryKey)
    requires
        key_le(a, b),
        key_le(b, a),
    ensures
        a == b,
{
    if a.binary_id != b.binary_id {
        list::lemma_bytes_le_antisymmetric(a.binary_id, b.binary_id);
    }
    list::lemma_bytes_le_antisymmetric(a.name, b.name);
}

/// The order of keys is transitive.
pub proof fn lemma_key_le_transitive(a: EntryKey, b: EntryKey, c: EntryKey)
    requires
        key_le(a, b),
        key_le(b, c),
    ensures
        key_le(a, c),
{
    if a.level == b.level && b.level == c.level {
        if a.binary_id == b.binary_id && b.binary_id == c.binary_id {
            list::lemma_bytes_le_transitive(a.name, b.name, c.name);
        } else if a.binary_id != b.binary_id && b.binary_id != c.binary_id {
            list::lemma_bytes_le_transitive(a.binary_id, b.binary_id, c.binary_id);
            if a.binary_id == c.binary_id {
                list::lemma_bytes_le_antisymmetric(a.binary_id, b.binary_id);
            }
        }
    }
}

/// An ordered sequence is still ordered without its first entry.
pub proof fn lemma_rest_in_order(entries: Seq<Entry>)
    requires
        in_order(entries),
        entries.len() > 0,
    ensures
        in_order(entries.drop_first()),
{
    let rest = entries.drop_first();
    assert forall|i: int, j: int| 0 <= i <= j < rest.len() implies key_le(
        key_of(#[trigger] rest[i]),
        key_of(#[trigger] rest[j]),
    ) by {
        assert(rest[i] == entries[i + 1] && rest[j] == entries[j + 1]);
    }
}

/// Two sequences of entries, merged.
spec fn merged<'a>(left: Seq<Entry<'a>>, right: Seq<Entry<'a>>) -> Seq<Entry<'a>>
    decreases left.len() + right.len(),
{
    if left.len() == 0 {
        right
    } else if right.len() == 0 {
        left
    } else if key_le(key_of(left[0]), key_of(right[0])) {
        seq![left[0]] + merged(left.drop_first(), right)
    } else {
        seq![right[0]] + merged(left, right.drop_first())
    }
}

/// What is merged comes from one side or the other.
proof fn lemma_merged_members(left: Seq<Entry>, right: Seq<Entry>)
    ensures
        forall|i: int|
            0 <= i < merged(left, right).len() ==> left.contains(#[trigger] merged(left, right)[i])
                || right.contains(merged(left, right)[i]),
    decreases left.len() + right.len(),
{
    let all = merged(left, right);
    if left.len() == 0 || right.len() == 0 {
    } else {
        let from_left = key_le(key_of(left[0]), key_of(right[0]));
        let l = if from_left { left.drop_first() } else { left };
        let r = if from_left { right } else { right.drop_first() };
        lemma_merged_members(l, r);
        assert forall|i: int| 0 <= i < all.len() implies left.contains(#[trigger] all[i])
            || right.contains(all[i]) by {
            if i == 0 {
                assert(left.contains(left[0]));
                assert(right.contains(right[0]));
            } else {
                assert(all[i] == merged(l, r)[i - 1]);
                if l.contains(all[i]) {
                    let j = choose|j: int| 0 <= j < l.len() && l[j] == all[i];
                    assert(left[if from_left { j + 1 } else { j }] == all[i]);
                } else {
                    let j = choose|j: int| 0 <= j < r.len() && r[j] == all[i];
                    assert(right[if from_left { j } else { j + 1 }] == all[i]);
                }
            }
        }
    }
}

/// Merging two ordered sequences gives an ordered one.
proof fn lemma_merged_in_order(left: Seq<Entry>, right: Seq<Entry>)
    requires
        in_order(left),
        in_order(right),
    ensures
        in_order(merged(left, right)),
    decreases left.len() + right.len(),
{
    if left.len() > 0 && right.len() > 0 {
        let all = merged(left, right);
        let from_left = key_le(key_of(left[0]), key_of(right[0]));
        let head = if from_left { left[0] } else { right[0] };
        let l = if from_left { left.drop_first() } else { left };
        let r = if from_left { right } else { right.drop_first() };
        lemma_key_le_total(key_of(left[0]), key_of(right[0]));
        if from_left {
            lemma_rest_in_order(left);
        } else {
            lemma_rest_in_order(right);
        }
        lemma_merged_in_order(l, r);
        lemma_merged_members(left, right);
        assert forall|j: int| 0 <= j < all.len() implies key_le(
            key_of(head),
            key_of(#[trigger] all[j]),
        ) by {
            if left.contains(all[j]) {
                let m = choose|m: int| 0 <= m < left.len() && left[m] == all[j];
                assert(key_le(key_of(left[0]), key_of(left[m])));
                lemma_key_le_transitive(key_of(head), key_of(left[0]), key_of(left[m]));
            } else {
                let m = choose|m: int| 0 <= m < right.len() && right[m] == all[j];
                assert(key_le(key_of(right[0]), key_of(right[m])));
                lemma_key_le_transitive(key_of(head), key_of(right[0]), key_of(right[m]));
            }
        }
        assert forall|i: int, j: int| 0 <= i <= j < all.len() implies key_le(
            key_of(#[trigger] all[i]),
            key_of(#[trigger] all[j]),
        ) by {
            if i == 0 {
                assert(all[0] == head);
            } else {
                assert(all[i] == merged(l, r)[i - 1]);
                assert(all[j] == merged(l, r)[j - 1]);
            }
        }
    }
}

/// An ordered sequence holds no entry with a key before that of its first one.
proof fn lemma_no_key_before_first(entries: Seq<Entry>, key: EntryKey)
    requires
        in_order(entries),
        entries.len() > 0,
        !key_le(key_of(entries[0]), key),
    ensures
        with_key(entries, key) == Seq::<Entry>::empty(),
{
    let pred = |e: Entry| key_of(e) == key;
    let found = with_key(entries, key);
    if found.len() > 0 {
        entries.lemma_filter_pred(pred, 0);
        assert(pred(found[0]));
        lemma_with_key_members(entries, key, 0);
        let m = choose|m: int| 0 <= m < entries.len() && entries[m] == found[0];
        assert(key_le(key_of(entries[0]), key_of(entries[m])));
    }
    assert(found =~= Seq::<Entry>::empty());
}

/// Entries selected by their key are entries of the sequence.
pub proof fn lemma_with_key_members(entries: Seq<Entry>, key: EntryKey, i: int)
    requires
        0 <= i < with_key(entries, key).len(),
    ensures
        entries.contains(with_key(entries, key)[i]),
    decreases entries.len(),
{
    reveal(Seq::filter);
    let pred = |e: Entry| key_of(e) == key;
    let shorter = entries.drop_last();
    let found = entries.filter(pred);
    let before = shorter.filter(pred);
    if i < before.len() {
        lemma_with_key_members(shorter, key, i);
        let m = choose|m: int| 0 <= m < shorter.len() && shorter[m] == before[i];
        assert(entries[m] == found[i]);
    } else {
        assert(found[i] == entries[entries.len() - 1]);
    }
}

/// Sorting adds nothing: what is there afterwards was there before.
pub proof fn lemma_stable_sort_members(before: Seq<Entry>, after: Seq<Entry>, i: int)
    requires
        is_stable_sort(before, after),
        0 <= i < after.len(),
    ensures
        before.contains(after[i]),
{
    let key = key_of(after[i]);
    after.lemma_filter_contains(|e: Entry| key_of(e) == key, i);
    let found = with_key(after, key);
    let m = choose|m: int| 0 <= m < found.len() && found[m] == after[i];
    assert(with_key(before, key) == found);
    lemma_with_key_members(before, key, m);
}

/// Merging keeps entries with the same key as they follow each other, those of the left side first.
proof fn lemma_merged_with_key(left: Seq<Entry>, right: Seq<Entry>, key: EntryKey)
    requires
        in_order(left),
        in_order(right),
    ensures
        with_key(merged(left, right), key) == with_key(left, key) + with_key(right, key),
    decreases left.len() + right.len(),
{
    let pred = |e: Entry| key_of(e) == key;
    reveal_with_fuel(Seq::filter, 2);
    if left.len() == 0 {
        assert(with_key(left, key) + with_key(right, key) =~= with_key(right, key));
    } else if right.len() == 0 {
        assert(with_key(left, key) + with_key(right, key) =~= with_key(left, key));
    } else if key_le(key_of(left[0]), key_of(right[0])) {
        let rest = left.drop_first();
        lemma_rest_in_order(left);
        lemma_merged_with_key(rest, right, key);
        Seq::filter_distributes_over_add(seq![left[0]], merged(rest, right), pred);
        Seq::filter_distributes_over_add(seq![left[0]], rest, pred);
        assert(left =~= seq![left[0]] + rest);
        assert(with_key(merged(left, right), key) =~= with_key(left, key) + with_key(right, key));
    } else {
        let rest = right.drop_first();
        lemma_rest_in_order(right);
        lemma_merged_with_key(left, rest, key);
        Seq::filter_distributes_over_add(seq![right[0]], merged(left, rest), pred);
        Seq::filter_distributes_over_add(seq![right[0]], rest, pred);
        assert(right =~= seq![right[0]] + rest);
        let head = seq![right[0]].filter(pred);
        assert(seq![right[0]].drop_last() =~= Seq::<Entry>::empty());
        if key_of(right[0]) == key {
            lemma_no_key_before_first(left, key);
        } else {
            assert(head =~= Seq::<Entry>::empty());
        }
        assert(with_key(merged(left, right), key) =~= with_key(left, key) + with_key(right, key));
    }
}

/// Returns true if the first entry may stand before the second one.
fn may_precede(a: &Entry, b: &Entry) -> (r: bool)
    ensures
        r == key_le(key_of(*a), key_of(*b)),
{
    let a_level: u8 = a.1.final_status_level().ordinal();
    let b_level: u8 = b.1.final_status_level().ordinal();
    if a_level != b_level {
        return a_level > b_level;
    }
    let by_binary = list::compare_bytes(
        a.0.suite_info.binary_id.as_str().as_bytes(),
        b.0.suite_info.binary_id.as_str().as_bytes(),
    );
    match by_binary {
        Comparison::Before => true,
        Comparison::After => false,
        Comparison::Same => {
            proof {
                list::lemma_bytes_le_total(key_of(*a).name, key_of(*a).name);
            }
            match list::compare_bytes(a.0.name.as_bytes(), b.0.name.as_bytes()) {
                Comparison::Before | Comparison::Same => true,
                Comparison::After => false,
            }
        },
    }
}

/// Turns a sequence of entries around.
fn reversed<'a>(entries: Vec<Entry<'a>>) -> (r: Vec<Entry<'a>>)
    ensures
        r@ == entries@.reverse(),
{
    let ghost all = entries@;
    let mut entries = entries;
    let mut r: Vec<Entry<'a>> = Vec::new();
    while entries.len() > 0
        invariant
            entries@.len() + r@.len() == all.len(),
            entries@ == all.take(entries@.len() as int),
            r@ == all.skip(entries@.len() as int).reverse(),
        decreases entries@.len(),
    {
        let ghost n = entries@.len() as int;
        if let Some(e) = entries.pop() {
            r.push(e);
        }
        assert(entries@ =~= all.take(n - 1));
        assert(r@ =~= all.skip(n - 1).reverse());
    }
    assert(all.skip(0) =~= all);
    r
}

/// Merges two sequences of entries.
fn merge<'a>(left: Vec<Entry<'a>>, right: Vec<Entry<'a>>) -> (r: Vec<Entry<'a>>)
    ensures
        r@ == merged(left@, right@),
{
    let ghost all = merged(left@, right@);
    let ghost l0 = left@;
    let ghost r0 = right@;
    let mut left = reversed(left);
    let mut right = reversed(right);
    let mut out: Vec<Entry<'a>> = Vec::new();
    proof {
        assert(left@.reverse() =~= l0);
        assert(right@.reverse() =~= r0);
        assert(out@ + all =~= all);
    }
    while left.len() > 0 && right.len() > 0
        invariant
            out@ + merged(left@.reverse(), right@.reverse()) == all,
        decreases left@.len() + right@.len(),
    {
        let ghost l = left@.reverse();
        let ghost r = right@.reverse();
        let ghost before = out@;
        assert(l[0] == left@[left@.len() - 1]);
        assert(r[0] == right@[right@.len() - 1]);
        if may_precede(&left[left.len() - 1], &right[right.len() - 1]) {
            if let Some(e) = left.pop() {
                out.push(e);
            }
            assert(left@.reverse() =~= l.drop_first());
            assert(before + (seq![l[0]] + merged(l.drop_first(), r)) =~= out@ + merged(
                l.drop_first(),
                r,
            ));
        } else {
            if let Some(e) = right.pop() {
                out.push(e);
            }
            assert(right@.reverse() =~= r.drop_first());
            assert(before + (seq![r[0]] + merged(l, r.drop_first())) =~= out@ + merged(
                l,
                r.drop_first(),
            ));
        }
    }
    let mut rest = if left.len() > 0 { reversed(left) } else { reversed(right) };
    out.append(&mut rest);
    out
}

/// Sorts the entries: the highest level first, so that failing tests come at the very end, then by
/// binary ID and by name. Entries that are the same in all of these stay as they are.
pub fn sort_entries<'a>(entries: Vec<Entry<'a>>) -> (r: Vec<Entry<'a>>)
    ensures
        is_stable_sort(entries@, r@),
    decreases entries@.len(),
{
    let ghost all = entries@;
    let mut entries = entries;
    let len = entries.len();
    if len < 2 {
        proof {
            assert forall|i: int, j: int| 0 <= i <= j < all.len() implies key_le(
                key_of(#[trigger] all[i]),
                key_of(#[trigger] all[j]),
            ) by {
                lemma_key_le_total(key_of(all[i]), key_of(all[i]));
            }
        }
        return entries;
    }
    let right = entries.split_off(len / 2);
    let ghost l = entries@;
    let ghost r = right@;
    let sorted_left = sort_entries(entries);
    let sorted_right = sort_entries(right);
    proof {
        assert(all =~= l + r);
        lemma_merged_in_order(sorted_left@, sorted_right@);
        assert forall|key: EntryKey| #[trigger]
            with_key(merged(sorted_left@, sorted_right@), key) == with_key(all, key) by {
            lemma_merged_with_key(sorted_left@, sorted_right@, key);
            Seq::filter_distributes_over_add(l, r, |e: Entry| key_of(e) == key);
            assert(with_key(sorted_left@, key) == with_key(l, key));
            assert(with_key(sorted_right@, key) == with_key(r, key));
        }
    }
    merge(sorted_left, sorted_right)
}

} // verus!
