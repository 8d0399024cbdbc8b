//! Blank lines: nothing but spaces, tabs and carriage returns up to the
//! line feed or the end of the input.

use vstd::prelude::*;
use vstd::slice::slice_subrange;
use crate::bytes::{CR, NL, SP, TAB};
use crate::line::{
    lemma_line_end_is_line_end, lemma_line_end_unique, line_body, line_end, line_len,
};
use crate::outcome::LineMatch;

verus! {

/// A byte that may stand on a blank line before its line feed.
pub open spec fn is_blank_byte(b: u8) -> bool {
    b == SP || b == TAB || b == CR
}

/// `s` holds nothing but spaces, tabs and carriage returns.
pub open spec fn only_blank_bytes(s: Seq<u8>) -> bool {
    forall|i: int| 0 <= i < s.len() ==> is_blank_byte(#[trigger] s[i])
}

/// Number of bytes that a blank line at the start of `s` takes up, or
/// `None` where `s` does not start with one.
///
/// The line takes up its line feed too. An input without a byte holds no
/// line, so a bare line feed is the shortest blank line there is.
pub open spec fn blank_len(s: Seq<u8>) -> Option<nat> {
    if s.len() > 0 && only_blank_bytes(line_body(s)) {
        Some(line_len(s))
    } else {
        None
    }
}

/// Tells whether `buf` starts with a blank line, and if so how many bytes
/// the line takes up and what follows it.
pub fn is_empty<'a>(buf: &'a [u8]) -> (r: Option<LineMatch<'a>>)
    ensures
        match r {
            Some(m) => {
                &&& blank_len(buf@) == Some(m.consumed as nat)
                &&& m.consumed > 0
                &&& m.splits(buf@)
            },
            None => blank_len(buf@) is None,
        },
{
    let mut i: usize = 0;
    while i < buf.len() && buf[i] != NL
        invariant
            i <= buf.len(),
            only_blank_bytes(buf@.take(i as int)),
            forall|j: int| 0 <= j < i ==> #[trigger] buf@[j] != NL,
        decreases buf.len() - i,
    {
        let ch = buf[i];
        if ch != CR && ch != SP && ch != TAB {
            proof {
                lemma_line_end_is_line_end(buf@);
                assert(line_body(buf@)[i as int] == ch);
            }
            return None;
        }
        i += 1;
    }
    proof {
        lemma_line_end_unique(buf@, i as int);
    }
    let cnt = if i < buf.len() {
        i + 1
    } else {
        i
    };
    if cnt == 0 {
        return None;
    }
    Some(LineMatch { consumed: cnt, remainder: slice_subrange(buf, cnt, buf.len()) })
}

/// A line of spaces, tabs and carriage returns is blank, and takes up its
/// bytes and its line feed, whatever follows.
///
/// Here `text` is the line without its line feed, and `rest` is what
/// follows the text: nothing, or a line feed and the lines after it. One
/// of the two holds a byte.
pub proof fn lemma_blank_of_blank_bytes(text: Seq<u8>, rest: Seq<u8>)
    requires
        only_blank_bytes(text),
        rest.len() > 0 ==> rest[0] == NL,
        text.len() + rest.len() > 0,
    ensures
        blank_len(text + rest) == Some(
            text.len() + if rest.len() > 0 {
                1nat
            } else {
                0nat
            },
        ),
{
    lemma_line_end_unique(text + rest, text.len() as int);
}

/// A byte other than a space, a tab and a carriage return, anywhere before
/// the line feed, makes the line something else than blank.
pub proof fn lemma_blank_takes_no_other_byte(s: Seq<u8>, i: int)
    requires
        0 <= i < line_end(s),
        !is_blank_byte(s[i]),
    ensures
        blank_len(s) is None,
{
    lemma_line_end_is_line_end(s);
    assert(line_body(s)[i] == s[i]);
}

} // verus!
