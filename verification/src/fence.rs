//! Code fences: an unbroken run of three or more backticks, or of three or
//! more tildes, which opens a fenced code block.

use vstd::prelude::*;
use vstd::slice::slice_subrange;
use crate::bytes::{BACKTICK, SP, TILDE};
use crate::outcome::FenceMatch;
use crate::prefix::{
    lemma_unindented_of_indented, prefix_len, skip_initial_three_spaces, spaces, unindented,
    MAX_INDENT,
};
use crate::run::{lemma_run_len_unique, run_len};

verus! {

/// The fewest fence bytes that make a fence.
pub const MIN_FENCE_LEN: usize = 3;

/// A byte that a fence can be made of.
pub open spec fn is_fence_byte(b: u8) -> bool {
    b == TILDE || b == BACKTICK
}

/// Length of the run of fence bytes that `s` starts with behind at most
/// three spaces of indentation, or `None` where there is no fence: where
/// the first byte behind the indentation is no fence byte, or is repeated
/// fewer than three times.
///
/// The run ends at the first byte that differs from its first one.
pub open spec fn fence_len(s: Seq<u8>) -> Option<nat> {
    let t = unindented(s);
    if t.len() > 0 && is_fence_byte(t[0]) && run_len(t, t[0]) >= MIN_FENCE_LEN {
        Some(run_len(t, t[0]))
    } else {
        None
    }
}

/// Tells whether `buf` starts with a code fence, and if so how long the
/// fence is, which byte it is made of, and what follows it.
///
/// Only the fence itself is taken: the rest of its line is left in the
/// remainder.
pub fn is_codefence<'a>(buf: &'a [u8]) -> (r: Option<FenceMatch<'a>>)
    ensures
        match r {
            Some(m) => {
                &&& fence_len(buf@) == Some(m.fence_length as nat)
                &&& m.fence_length >= MIN_FENCE_LEN
                &&& m.fence_char == unindented(buf@)[0]
                &&& is_fence_byte(m.fence_char)
                &&& m.consumed == prefix_len(buf@) + m.fence_length
                &&& m.splits(buf@)
            },
            None => fence_len(buf@) is None,
        },
{
    let line = skip_initial_three_spaces(buf);
    let indent = buf.len() - line.len();
    if line.len() == 0 {
        return None;
    }
    let item = line[0];
    if item != TILDE && item != BACKTICK {
        return None;
    }
    let mut cnt: usize = 0;
    while cnt < line.len() && line[cnt] == item
        invariant
            cnt <= line.len(),
            forall|j: int| 0 <= j < cnt ==> #[trigger] line@[j] == item,
        decreases line.len() - cnt,
    {
        cnt += 1;
    }
    proof {
        lemma_run_len_unique(line@, item, cnt as int);
    }
    if cnt < MIN_FENCE_LEN {
        return None;
    }
    proof {
        assert(buf@.skip(indent as int).skip(cnt as int) == buf@.skip(indent + cnt));
    }
    Some(
        FenceMatch {
            consumed: indent + cnt,
            remainder: slice_subrange(line, cnt, line.len()),
            fence_length: cnt,
            fence_char: item,
        },
    )
}

/// `n` times `b`.
pub open spec fn repeated(b: u8, n: nat) -> Seq<u8> {
    Seq::new(n, |i: int| b)
}

/// A fence byte that is written `n` times on end, behind at most three
/// spaces of indentation, is a fence if and only if `n` is three or more.
/// The fence is then `n` bytes long, whatever follows.
///
/// Here `rest` is what follows the run: anything that does not go on with
/// the same byte.
pub proof fn lemma_fence_of_run(indent: nat, b: u8, n: nat, rest: Seq<u8>)
    requires
        indent <= MAX_INDENT,
        is_fence_byte(b),
        n > 0,
        rest.len() > 0 ==> rest[0] != b,
    ensures
        fence_len(spaces(indent) + repeated(b, n) + rest) == if n >= MIN_FENCE_LEN {
            Some(n)
        } else {
            None
        },
        prefix_len(spaces(indent) + repeated(b, n) + rest) == indent,
{
    let t = repeated(b, n) + rest;
    assert(spaces(indent) + repeated(b, n) + rest =~= spaces(indent) + t);
    lemma_unindented_of_indented(indent, t);
    lemma_run_len_unique(t, b, n as int);
}

/// Four spaces of indentation are one too many for a fence.
pub proof fn lemma_fence_indent_limit(s: Seq<u8>)
    requires
        s.len() > MAX_INDENT,
        forall|i: int| 0 <= i <= MAX_INDENT ==> #[trigger] s[i] == SP,
    ensures
        fence_len(s) is None,
{
}

} // verus!
