//! Horizontal rules: a line of three or more `*`, `-` or `_`, with spaces
//! between them at will.

use vstd::prelude::*;
use vstd::slice::slice_subrange;
use crate::bytes::{DASH, NL, SP, STAR, UNDERSCORE};
use crate::line::{
    lemma_line_end_is_line_end, lemma_line_end_unique, line_body, line_end, line_len,
};
use crate::outcome::LineMatch;
use crate::prefix::{
    lemma_unindented_of_indented, prefix_len, skip_initial_three_spaces, spaces, unindented,
    MAX_INDENT,
};

verus! {

/// The fewest item bytes that make a rule.
pub const MIN_RULE_ITEMS: usize = 3;

/// A byte that a rule can be made of.
pub open spec fn is_rule_byte(b: u8) -> bool {
    b == STAR || b == DASH || b == UNDERSCORE
}

/// Number of times that `b` occurs in `s`.
pub open spec fn occurrences(s: Seq<u8>, b: u8) -> nat
    decreases s.len(),
{
    if s.len() == 0 {
        0
    } else {
        occurrences(s.drop_last(), b) + if s.last() == b {
            1nat
        } else {
            0nat
        }
    }
}

/// `s` holds nothing but `item` and spaces.
pub open spec fn only_item_and_spaces(s: Seq<u8>, item: u8) -> bool {
    forall|i: int| 0 <= i < s.len() ==> (#[trigger] s[i]) == item || s[i] == SP
}

/// `line`, taken without its line feed, is the text of a rule: it starts
/// with a rule byte, its item, holds nothing but the item and spaces, and
/// holds the item three times or more.
pub open spec fn is_rule_text(line: Seq<u8>) -> bool {
    &&& line.len() > 0
    &&& is_rule_byte(line[0])
    &&& only_item_and_spaces(line, line[0])
    &&& occurrences(line, line[0]) >= MIN_RULE_ITEMS
}

/// Number of bytes that a horizontal rule at the start of `s` takes up, or
/// `None` where `s` does not start with one.
///
/// The rule is the first line of `s` behind at most three spaces of
/// indentation; it takes up the indentation, the line and its line feed.
pub open spec fn rule_len(s: Seq<u8>) -> Option<nat> {
    let t = unindented(s);
    if is_rule_text(line_body(t)) {
        Some(prefix_len(s) + line_len(t))
    } else {
        None
    }
}

/// Tells whether `buf` starts with a horizontal rule, and if so how many
/// bytes the rule takes up and what follows it.
///
/// Any byte on the line other than the item and the space makes the whole
/// line something else, wherever it stands.
pub fn is_hrule<'a>(buf: &'a [u8]) -> (r: Option<LineMatch<'a>>)
    ensures
        match r {
            Some(m) => {
                &&& rule_len(buf@) == Some(m.consumed as nat)
                &&& m.consumed > 0
                &&& m.splits(buf@)
            },
            None => rule_len(buf@) is None,
        },
{
    let line = skip_initial_three_spaces(buf);
    let indent = buf.len() - line.len();
    if line.len() == 0 {
        return None;
    }
    let item = line[0];
    if item != STAR && item != DASH && item != UNDERSCORE {
        proof {
            lemma_line_end_is_line_end(line@);
        }
        return None;
    }
    let mut cnt: usize = 0;
    let mut i: usize = 0;
    while i < line.len() && line[i] != NL
        invariant
            line@ == unindented(buf@),
            line@.len() > 0,
            item == line@[0],
            i <= line.len(),
            cnt <= i,
            cnt == occurrences(line@.take(i as int), item),
            only_item_and_spaces(line@.take(i as int), item),
            forall|j: int| 0 <= j < i ==> #[trigger] line@[j] != NL,
        decreases line.len() - i,
    {
        let ch = line[i];
        if ch == item {
            cnt += 1;
        } else if ch != SP {
            proof {
                lemma_line_end_is_line_end(line@);
                assert(line_body(line@)[i as int] == ch);
            }
            return None;
        }
        proof {
            assert(line@.take(i + 1).drop_last() == line@.take(i as int));
        }
        i += 1;
    }
    proof {
        lemma_line_end_unique(line@, i as int);
    }
    if cnt < MIN_RULE_ITEMS {
        return None;
    }
    let scanned = if i < line.len() {
        i + 1
    } else {
        i
    };
    proof {
        assert(buf@.skip(indent as int).skip(scanned as int) == buf@.skip(indent + scanned));
    }
    Some(
        LineMatch {
            consumed: indent + scanned,
            remainder: slice_subrange(line, scanned, line.len()),
        },
    )
}

/// A line made of one rule byte and of spaces, behind at most three spaces
/// of indentation, is a rule if and only if the rule byte stands on it
/// three times or more. The rule then takes up the indentation, the line
/// and its line feed, whatever follows.
///
/// Here `text` is the line without its indentation and its line feed, and
/// `rest` is what follows the text: nothing, or a line feed and the lines
/// after it.
pub proof fn lemma_rule_of_item_and_spaces(indent: nat, text: Seq<u8>, rest: Seq<u8>)
    requires
        indent <= MAX_INDENT,
        text.len() > 0,
        is_rule_byte(text[0]),
        only_item_and_spaces(text, text[0]),
        rest.len() > 0 ==> rest[0] == NL,
    ensures
        rule_len(spaces(indent) + text + rest) == if occurrences(text, text[0])
            >= MIN_RULE_ITEMS {
            Some(
                indent + text.len() + if rest.len() > 0 {
                    1nat
                } else {
                    0nat
                },
            )
        } else {
            None
        },
{
    let t = text + rest;
    assert(spaces(indent) + text + rest =~= spaces(indent) + t);
    lemma_unindented_of_indented(indent, t);
    lemma_line_end_unique(t, text.len() as int);
    assert(line_body(t) =~= text);
}

/// A byte other than the item and the space, anywhere on the line, makes
/// the line something else than a rule, however many items stand before
/// it.
pub proof fn lemma_rule_takes_no_other_byte(s: Seq<u8>, i: int)
    requires
        0 <= i < line_end(unindented(s)),
        unindented(s)[i] != unindented(s)[0],
        unindented(s)[i] != SP,
    ensures
        rule_len(s) is None,
{
    let t = unindented(s);
    lemma_line_end_is_line_end(t);
    assert(line_body(t)[i] == t[i]);
}

/// Four spaces of indentation are one too many for a rule.
pub proof fn lemma_rule_indent_limit(s: Seq<u8>)
    requires
        s.len() > MAX_INDENT,
        forall|i: int| 0 <= i <= MAX_INDENT ==> #[trigger] s[i] == SP,
    ensures
        rule_len(s) is None,
{
    lemma_line_end_is_line_end(unindented(s));
}

} // verus!
