//! What a loop that classifies line after line can rely on: a match always
//! takes bytes away from the front of the input, and an input without
//! bytes matches nothing.

use vstd::prelude::*;
use crate::blank::blank_len;
use crate::fence::{fence_len, MIN_FENCE_LEN};
use crate::hrule::rule_len;
use crate::prefix::{lemma_prefix_len_is_prefix_len, prefix_len, unindented};
use crate::run::lemma_run_len_is_run;

verus! {

/// The first `n` bytes of `s` can be taken away: there is at least one of
/// them, `s` holds them all, and what is left is shorter than `s` and
/// shares no byte with them.
pub open spec fn advances(s: Seq<u8>, n: nat) -> bool {
    &&& 0 < n <= s.len()
    &&& s.take(n as int) + s.skip(n as int) == s
    &&& s.skip(n as int).len() + n == s.len()
}

/// Taking `n` bytes away and then `m` more is taking `n + m` bytes away:
/// a second match on what the first one left starts where the first one
/// ended, and never reads a byte that the first one took.
pub proof fn lemma_advances_twice(s: Seq<u8>, n: nat, m: nat)
    requires
        advances(s, n),
        advances(s.skip(n as int), m),
    ensures
        advances(s, n + m),
        s.skip(n as int).skip(m as int) == s.skip((n + m) as int),
        s.skip(n as int).take(m as int) == s.subrange(n as int, (n + m) as int),
{
    assert(s.take((n + m) as int) + s.skip((n + m) as int) =~= s);
}

/// A rule takes up at least one byte of the input and never more than the
/// input holds, so what follows it is shorter than the input.
pub proof fn lemma_rule_advances(s: Seq<u8>)
    requires
        rule_len(s) is Some,
    ensures
        advances(s, rule_len(s).unwrap()),
{
    let n = rule_len(s).unwrap();
    lemma_prefix_len_is_prefix_len(s);
    assert(s.take(n as int) + s.skip(n as int) =~= s);
}

/// A blank line takes up at least one byte of the input and never more
/// than the input holds, so what follows it is shorter than the input.
pub proof fn lemma_blank_advances(s: Seq<u8>)
    requires
        blank_len(s) is Some,
    ensures
        advances(s, blank_len(s).unwrap()),
{
    let n = blank_len(s).unwrap();
    assert(s.take(n as int) + s.skip(n as int) =~= s);
}

/// A fence and its indentation take up at least three bytes of the input
/// and never more than the input holds, so what follows the fence is
/// shorter than the input.
pub proof fn lemma_fence_advances(s: Seq<u8>)
    requires
        fence_len(s) is Some,
    ensures
        advances(s, prefix_len(s) + fence_len(s).unwrap()),
        fence_len(s).unwrap() >= MIN_FENCE_LEN,
{
    let t = unindented(s);
    let n = prefix_len(s) + fence_len(s).unwrap();
    lemma_prefix_len_is_prefix_len(s);
    lemma_run_len_is_run(t, t[0]);
    assert(s.take(n as int) + s.skip(n as int) =~= s);
}

/// An input without a byte is no rule, no blank line and no fence.
pub proof fn lemma_empty_input_matches_nothing()
    ensures
        rule_len(Seq::<u8>::empty()) is None,
        blank_len(Seq::<u8>::empty()) is None,
        fence_len(Seq::<u8>::empty()) is None,
{
}

} // verus!
