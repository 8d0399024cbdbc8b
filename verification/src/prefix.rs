//! The indentation that a block element may have.

use vstd::prelude::*;
use vstd::slice::slice_subrange;
use crate::bytes::SP;
use crate::run::{lemma_run_len_is_run, run_len};

verus! {

/// The most spaces that may stand before a rule or a fence.
pub const MAX_INDENT: usize = 3;

/// Number of bytes that `skip_initial_three_spaces` removes from `s`: the
/// spaces that `s` starts with, but no more than three of them.
pub open spec fn prefix_len(s: Seq<u8>) -> nat {
    if run_len(s, SP) < MAX_INDENT {
        run_len(s, SP)
    } else {
        MAX_INDENT as nat
    }
}

/// `n` spaces.
pub open spec fn spaces(n: nat) -> Seq<u8> {
    Seq::new(n, |i: int| SP)
}

/// What is left of `s` behind its indentation.
pub open spec fn unindented(s: Seq<u8>) -> Seq<u8> {
    s.skip(prefix_len(s) as int)
}

/// `s` starts with `n` spaces, `n` being three at most, and goes on with
/// something else unless `n` is three.
pub open spec fn is_prefix_len(s: Seq<u8>, n: int) -> bool {
    &&& 0 <= n <= MAX_INDENT
    &&& n <= s.len()
    &&& forall|i: int| 0 <= i < n ==> #[trigger] s[i] == SP
    &&& n < MAX_INDENT && n < s.len() ==> s[n] != SP
}

/// `is_prefix_len` accepts the length that `prefix_len` returns.
pub proof fn lemma_prefix_len_is_prefix_len(s: Seq<u8>)
    ensures
        is_prefix_len(s, prefix_len(s) as int),
{
    lemma_run_len_is_run(s, SP);
}

/// `is_prefix_len` accepts no other length than the one that `prefix_len`
/// returns.
pub proof fn lemma_prefix_len_unique(s: Seq<u8>, n: int)
    requires
        is_prefix_len(s, n),
    ensures
        prefix_len(s) == n,
{
    lemma_run_len_is_run(s, SP);
}

/// Behind at most three spaces, something that does not start with a
/// space is what is left when the indentation is taken away.
pub proof fn lemma_unindented_of_indented(indent: nat, text: Seq<u8>)
    requires
        indent <= MAX_INDENT,
        text.len() > 0 ==> text[0] != SP,
    ensures
        prefix_len(spaces(indent) + text) == indent,
        unindented(spaces(indent) + text) == text,
{
    lemma_prefix_len_unique(spaces(indent) + text, indent as int);
}

/// Skips up to three leading spaces.
///
/// A tab is left in place: where it stands it counts as four spaces, so the
/// line it starts is neither a rule nor a fence.
pub fn skip_initial_three_spaces<'a>(buf: &'a [u8]) -> (rest: &'a [u8])
    ensures
        rest@ == unindented(buf@),
        rest@.len() + prefix_len(buf@) == buf@.len(),
{
    let mut n: usize = 0;
    while n < MAX_INDENT && n < buf.len() && buf[n] == SP
        invariant
            n <= MAX_INDENT,
            n <= buf.len(),
            forall|i: int| 0 <= i < n ==> #[trigger] buf@[i] == SP,
        decreases MAX_INDENT - n,
    {
        n += 1;
    }
    proof {
        lemma_prefix_len_unique(buf@, n as int);
    }
    slice_subrange(buf, n, buf.len())
}

} // verus!
