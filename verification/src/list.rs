//! Tests, and the binaries that they are in.

use crate::style::ListStyles;
use vstd::prelude::*;
use vstd::string::*;
use vstd::utf8::*;

verus! {

/// A test binary.
#[derive(Debug)]
pub struct RustTestSuite {
    /// The ID of the binary.
    pub binary_id: String,
    /// The number of tests in the binary.
    pub test_count: usize,
}

/// The tests of a run.
#[derive(Debug)]
pub struct TestList {
    /// The test binaries.
    pub suites: Vec<RustTestSuite>,
    /// The number of tests over all binaries.
    pub test_count: usize,
    /// The number of tests that will be run.
    pub run_count: usize,
    /// The number of tests that will be skipped.
    pub skip_count: usize,
    /// The number of binaries that tests are run from.
    pub binary_count: usize,
}

/// A test in a test binary.
#[derive(Copy, Clone, Debug)]
pub struct TestInstance<'a> {
    /// The name of the test.
    pub name: &'a str,
    /// The binary that the test is in.
    pub suite_info: &'a RustTestSuite,
}

/// The reason why a test was skipped.
#[derive(Copy, Clone, Debug, PartialEq, Eq, Structural)]
#[non_exhaustive]
pub enum MismatchReason {
    /// The test is ignored.
    Ignored,
    /// The test does not match the given strings.
    String,
    /// The test does not match the given expressions.
    Expression,
    /// The test is in another partition.
    Partition,
}

/// The lexicographic order of byte strings.
pub open spec fn bytes_le(a: Seq<u8>, b: Seq<u8>) -> bool
    decreases a.len(),
{
    if a.len() == 0 {
        true
    } else if b.len() == 0 {
        false
    } else if a[0] != b[0] {
        a[0] < b[0]
    } else {
        bytes_le(a.drop_first(), b.drop_first())
    }
}

/// How one byte string compares to another.
#[derive(Copy, Clone, Debug, PartialEq, Eq, Structural)]
pub enum Comparison {
    /// It comes first.
    Before,
    /// The two are equal.
    Same,
    /// It comes last.
    After,
}

/// Compares two byte strings lexicographically.
pub fn compare_bytes(a: &[u8], b: &[u8]) -> (r: Comparison)
    ensures
        r == (if a@ == b@ {
            Comparison::Same
        } else if bytes_le(a@, b@) {
            Comparison::Before
        } else {
            Comparison::After
        }),
{
    let mut i: usize = 0;
    assert(a@.skip(0) =~= a@);
    assert(b@.skip(0) =~= b@);
    while i < a.len() && i < b.len()
        invariant
            i <= a@.len(),
            i <= b@.len(),
            a@.take(i as int) == b@.take(i as int),
            bytes_le(a@, b@) == bytes_le(a@.skip(i as int), b@.skip(i as int)),
        decreases a@.len() - i,
    {
        let ghost rest_a = a@.skip(i as int);
        let ghost rest_b = b@.skip(i as int);
        assert(rest_a[0] == a@[i as int]);
        assert(rest_b[0] == b@[i as int]);
        if a[i] < b[i] {
            assert(a@[i as int] != b@[i as int]);
            return Comparison::Before;
        }
        if a[i] > b[i] {
            assert(a@[i as int] != b@[i as int]);
            return Comparison::After;
        }
        assert(rest_a.drop_first() =~= a@.skip(i + 1));
        assert(rest_b.drop_first() =~= b@.skip(i + 1));
        assert(a@.take(i + 1) =~= a@.take(i as int).push(a@[i as int]));
        assert(b@.take(i + 1) =~= b@.take(i as int).push(b@[i as int]));
        i = i + 1;
    }
    assert(a@.skip(i as int).len() == a@.len() - i);
    assert(b@.skip(i as int).len() == b@.len() - i);
    if a.len() == b.len() {
        assert(a@ =~= a@.take(i as int));
        assert(b@ =~= b@.take(i as int));
        Comparison::Same
    } else if a.len() < b.len() {
        Comparison::Before
    } else {
        Comparison::After
    }
}

/// Every byte string comes before or after every other one.
pub proof fn lemma_bytes_le_total(a: Seq<u8>, b: Seq<u8>)
    ensures
        bytes_le(a, b) || bytes_le(b, a),
    decreases a.len(),
{
    if a.len() > 0 && b.len() > 0 && a[0] == b[0] {
        lemma_bytes_le_total(a.drop_first(), b.drop_first());
    }
}

/// No two different byte strings come before each other.
pub proof fn lemma_bytes_le_antisymmetric(a: Seq<u8>, b: Seq<u8>)
    requires
        bytes_le(a, b),
        bytes_le(b, a),
    ensures
        a == b,
    decreases a.len(),
{
    if a.len() > 0 && b.len() > 0 {
        lemma_bytes_le_antisymmetric(a.drop_first(), b.drop_first());
        assert(a =~= seq![a[0]] + a.drop_first());
        assert(b =~= seq![b[0]] + b.drop_first());
    } else {
        assert(a =~= b);
    }
}

/// The order of byte strings is transitive.
pub proof fn lemma_bytes_le_transitive(a: Seq<u8>, b: Seq<u8>, c: Seq<u8>)
    requires
        bytes_le(a, b),
        bytes_le(b, c),
    ensures
        bytes_le(a, c),
    decreases a.len(),
{
    if a.len() > 0 && b.len() > 0 && c.len() > 0 && a[0] == b[0] && b[0] == c[0] {
        lemma_bytes_le_transitive(a.drop_first(), b.drop_first(), c.drop_first());
    }
}

impl<'a> TestInstance<'a> {
    /// What tests are sorted by: the binary ID and the name, as byte strings.
    pub open spec fn sort_key(self) -> (Seq<u8>, Seq<u8>) {
        (encode_utf8(self.suite_info.binary_id@), encode_utf8(self.name@))
    }
}

/// The position of the last `::` in a test name.
pub open spec fn last_separator(name: Seq<char>) -> Option<int>
    decreases name.len(),
{
    if name.len() < 2 {
        None
    } else if name[name.len() - 2] == ':' && name[name.len() - 1] == ':' {
        Some(name.len() - 2)
    } else {
        last_separator(name.drop_last())
    }
}

/// A test name with its module path and its last component each in its style.
pub open spec fn styled_test_name(name: Seq<char>, styles: ListStyles) -> Seq<char> {
    match last_separator(name) {
        Some(i) => styles.module_prefix.painted(name.take(i)) + styles.module_prefix.painted("::"@)
            + styles.test_name.painted(name.skip(i + 2)),
        None => styles.test_name.painted(name),
    }
}

/// The characters of a string.
fn characters(s: &str) -> (r: Vec<char>)
    ensures
        r@ == s@,
{
    let mut v: Vec<char> = Vec::new();
    for c in it: s.chars()
        invariant
            it.seq() == s@,
            v@ == s@.take(it.index() as int),
    {
        v.push(c);
    }
    v
}

/// Finds the last `::` in a test name.
fn find_last_separator(name: &str) -> (r: Option<usize>)
    ensures
        match r {
            Some(i) => last_separator(name@) == Some(i as int) && i + 2 <= name@.len(),
            None => last_separator(name@) is None,
        },
{
    let chars = characters(name);
    let mut end: usize = chars.len();
    assert(name@.take(end as int) =~= name@);
    while end >= 2
        invariant
            chars@ == name@,
            end <= name@.len(),
            last_separator(name@) == last_separator(name@.take(end as int)),
        decreases end,
    {
        if chars[end - 2] == ':' && chars[end - 1] == ':' {
            return Some(end - 2);
        }
        assert(name@.take(end as int).drop_last() =~= name@.take(end - 1));
        end = end - 1;
    }
    None
}

/// Writes a test name, with its module path and its last component each in its style.
pub fn write_test_name(name: &str, styles: &ListStyles, out: &mut String)
    ensures
        final(out)@ == old(out)@ + styled_test_name(name@, *styles),
{
    match find_last_separator(name) {
        Some(i) => {
            let len = name.unicode_len();
            let mut styled = styles.module_prefix.paint(name.substring_char(0, i));
            let separator = styles.module_prefix.paint("::");
            styled.append(separator.as_str());
            let trailing = styles.test_name.paint(name.substring_char(i + 2, len));
            styled.append(trailing.as_str());
            assert(name@.subrange(0, i as int) =~= name@.take(i as int));
            assert(name@.subrange(i + 2, len as int) =~= name@.skip(i + 2));
            out.append(styled.as_str());
        },
        None => {
            let styled = styles.test_name.paint(name);
            out.append(styled.as_str());
        },
    }
}

} // verus!
