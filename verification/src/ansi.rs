//! Escape sequences in test output.

use vstd::prelude::*;

verus! {

/// What `strip_ansi_escapes::strip` returns for the given bytes: those that remain when the escape
/// sequences are taken out. Which bytes form an escape sequence is not said here.
pub uninterp spec fn stripped(bytes: Seq<u8>) -> Seq<u8>;

/// Calls `strip_ansi_escapes::strip`. Its result is a function of the bytes alone.
#[verifier::external_body]
pub(crate) fn strip(bytes: &[u8]) -> (r: Vec<u8>)
    ensures
        r@ == stripped(bytes@),
{
    strip_ansi_escapes::strip(bytes)
}

} // verus!
