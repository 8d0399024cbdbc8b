//! Runs of one byte at the start of a sequence.

use vstd::prelude::*;

verus! {

/// Number of times that `b` stands at the start of `s` without a break.
pub open spec fn run_len(s: Seq<u8>, b: u8) -> nat
    decreases s.len(),
{
    if s.len() > 0 && s[0] == b {
        1 + run_len(s.skip(1), b)
    } else {
        0
    }
}

/// `s` starts with `n` times `b`, and does not go on with `b`.
pub open spec fn is_run(s: Seq<u8>, b: u8, n: int) -> bool {
    &&& 0 <= n <= s.len()
    &&& forall|i: int| 0 <= i < n ==> #[trigger] s[i] == b
    &&& n < s.len() ==> s[n] != b
}

/// `is_run` accepts the length that `run_len` returns.
pub proof fn lemma_run_len_is_run(s: Seq<u8>, b: u8)
    ensures
        is_run(s, b, run_len(s, b) as int),
    decreases s.len(),
{
    if s.len() > 0 && s[0] == b {
        let t = s.skip(1);
        lemma_run_len_is_run(t, b);
        let n = run_len(s, b) as int;
        assert forall|i: int| 0 <= i < n implies #[trigger] s[i] == b by {
            if i > 0 {
                assert(s[i] == t[i - 1]);
            }
        }
    }
}

/// `is_run` accepts no other length than the one that `run_len` returns.
pub proof fn lemma_run_len_unique(s: Seq<u8>, b: u8, n: int)
    requires
        is_run(s, b, n),
    ensures
        run_len(s, b) == n,
{
    lemma_run_len_is_run(s, b);
}

} // verus!
