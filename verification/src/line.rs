//! Where the first line of an input ends.

use vstd::prelude::*;
use crate::bytes::NL;

verus! {

/// Index of the first line feed of `s`, or the length of `s` where it has
/// none.
pub open spec fn line_end(s: Seq<u8>) -> nat
    decreases s.len(),
{
    if s.len() > 0 && s[0] != NL {
        1 + line_end(s.skip(1))
    } else {
        0
    }
}

/// Length of the first line of `s`, with the line feed that ends it.
pub open spec fn line_len(s: Seq<u8>) -> nat {
    if line_end(s) < s.len() {
        line_end(s) + 1
    } else {
        s.len()
    }
}

/// The first line of `s` without the line feed that ends it.
pub open spec fn line_body(s: Seq<u8>) -> Seq<u8> {
    s.take(line_end(s) as int)
}

/// No line feed stands before index `e` of `s`, and one stands at `e`
/// unless `s` ends there.
pub open spec fn is_line_end(s: Seq<u8>, e: int) -> bool {
    &&& 0 <= e <= s.len()
    &&& forall|i: int| 0 <= i < e ==> #[trigger] s[i] != NL
    &&& e < s.len() ==> s[e] == NL
}

/// `is_line_end` accepts the index that `line_end` returns.
pub proof fn lemma_line_end_is_line_end(s: Seq<u8>)
    ensures
        is_line_end(s, line_end(s) as int),
    decreases s.len(),
{
    if s.len() > 0 && s[0] != NL {
        let t = s.skip(1);
        lemma_line_end_is_line_end(t);
        let e = line_end(s) as int;
        assert forall|i: int| 0 <= i < e implies #[trigger] s[i] != NL by {
            if i > 0 {
                assert(s[i] == t[i - 1]);
            }
        }
    }
}

/// `is_line_end` accepts no other index than the one that `line_end`
/// returns.
pub proof fn lemma_line_end_unique(s: Seq<u8>, e: int)
    requires
        is_line_end(s, e),
    ensures
        line_end(s) == e,
{
    lemma_line_end_is_line_end(s);
}

} // verus!
