//! Command lines.

use vstd::prelude::*;

verus! {

/// What `shell_words::join` returns for the given words: one command line, in which each word is
/// quoted as far as a Unix shell needs it. How a word is quoted is not said here.
pub uninterp spec fn command_line(words: Seq<Seq<char>>) -> Seq<char>;

/// Calls `shell_words::join`. Its result is a function of the words alone.
#[verifier::external_body]
fn join_words(words: &Vec<&str>) -> (r: String)
    ensures
        r@ == command_line(words.deep_view()),
{
    shell_words::join(words)
}

/// The words of a command: its name and its arguments.
pub open spec fn command_words(command: &str, args: &[String]) -> Seq<Seq<char>> {
    seq![command@] + args@.map_values(|arg: String| arg@)
}

/// Returns the command line for a command and its arguments.
pub fn full_command(command: &str, args: &[String]) -> (r: String)
    ensures
        r@ == command_line(command_words(command, args)),
{
    let mut words: Vec<&str> = Vec::new();
    words.push(command);
    let mut i: usize = 0;
    while i < args.len()
        invariant
            i <= args@.len(),
            words@.len() == i + 1,
            words@[0]@ == command@,
            forall|j: int| 0 <= j < i ==> #[trigger] words@[j + 1]@ == args@[j]@,
        decreases args@.len() - i,
    {
        words.push(args[i].as_str());
        i = i + 1;
    }
    proof {
        let expected = command_words(command, args);
        assert forall|j: int| 0 <= j < words@.len() implies words.deep_view()[j] == expected[j] by {
            if j > 0 {
                assert(words@[(j - 1) + 1]@ == args@[j - 1]@);
            }
        }
        assert(words.deep_view() =~= expected);
    }
    join_words(&words)
}

} // verus!
