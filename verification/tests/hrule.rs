use markdown::{is_hrule, LineMatch};

fn consumed(buf: &[u8]) -> Option<usize> {
    is_hrule(buf).map(|m: LineMatch| m.consumed)
}

#[test]
fn test_is_hrule() {
    // examples as given on the markdown homepage
    assert!(is_hrule(b"* * *\n").is_some());
    assert!(is_hrule(b"***\n").is_some());
    assert!(is_hrule(b"*****\n").is_some());
    assert!(is_hrule(b"- - -\n").is_some());
    assert!(is_hrule(b"---------------------------------------\n").is_some());

    // up to three spaces ignored
    assert!(is_hrule(b" ***\n").is_some());
    assert!(is_hrule(b"  ***\n").is_some());
    assert!(is_hrule(b"   ***\n").is_some());

    // but not four, or a tab which is equivalent to four spaces
    assert!(is_hrule(b"    ***\n").is_none());
    assert!(is_hrule(b"\t***\n").is_none());

    // need at least three
    assert!(is_hrule(b"*\n").is_none());
    assert!(is_hrule(b"**\n").is_none());
    assert!(is_hrule(b"* *\n").is_none());
    assert!(is_hrule(b"   * *\n").is_none());

    // Also works without newline at the end
    assert!(is_hrule(b"* * *").is_some());

    // And underscores also supported
    assert!(is_hrule(b"___").is_some());
    assert!(is_hrule(b"______________").is_some());
    assert!(is_hrule(b" ______________").is_some());

    // Test if the remaining buf actually works.
    let s = b"   * * *\nremaining";
    let res = is_hrule(s);
    assert!(res.is_some());
    assert_eq!(res.unwrap().remainder, b"remaining");
}

#[test]
fn hrule_reports_consumed_bytes() {
    assert_eq!(consumed(b"***\n"), Some(4));
    assert_eq!(consumed(b"***"), Some(3));
    assert_eq!(consumed(b"* * *\n"), Some(6));
    assert_eq!(consumed(b"   * * *\nremaining"), Some(9));
    assert_eq!(consumed(b"---------------------------------------\n"), Some(40));
    assert_eq!(consumed(b" ______________"), Some(15));
}

#[test]
fn hrule_result_as_a_whole() {
    assert_eq!(is_hrule(b"***\nx"), Some(LineMatch { consumed: 4, remainder: b"x" }));
    assert_eq!(is_hrule(b" - - -"), Some(LineMatch { consumed: 6, remainder: b"" }));
    assert_eq!(is_hrule(b"**\nx"), None);
}

#[test]
fn hrule_without_newline_leaves_nothing() {
    let m = is_hrule(b"* * *").unwrap();
    assert_eq!(m.consumed, 5);
    assert!(m.remainder.is_empty());
}

#[test]
fn hrule_takes_trailing_spaces_and_one_newline() {
    let m = is_hrule(b"---   \n\nnext").unwrap();
    assert_eq!(m.consumed, 7);
    assert_eq!(m.remainder, b"\nnext");
}

#[test]
fn hrule_stops_at_first_newline() {
    let m = is_hrule(b"___\nnot a rule at all").unwrap();
    assert_eq!(m.consumed, 4);
    assert_eq!(m.remainder, b"not a rule at all");
}

#[test]
fn hrule_fails_on_any_other_byte() {
    assert!(is_hrule(b"* * * a").is_none());
    assert!(is_hrule(b"* * * a\n").is_none());
    assert!(is_hrule(b"***a").is_none());
    assert!(is_hrule(b"***\t\n").is_none());
    assert!(is_hrule(b"***\r\n").is_none());
    assert!(is_hrule(b"*** -\n").is_none());
}

#[test]
fn hrule_does_not_mix_items() {
    assert!(is_hrule(b"*-*\n").is_none());
    assert!(is_hrule(b"-_-_-\n").is_none());
    assert!(is_hrule(b"**_\n").is_none());
}

#[test]
fn hrule_needs_a_rule_byte_first() {
    assert!(is_hrule(b"a***\n").is_none());
    assert!(is_hrule(b"\n***\n").is_none());
    assert!(is_hrule(b"~~~\n").is_none());
    assert!(is_hrule(b"   ").is_none());
    assert!(is_hrule(b" \t***\n").is_none());
}

#[test]
fn hrule_indent_of_three_is_allowed_and_four_is_not() {
    assert_eq!(consumed(b"   ***\n"), Some(7));
    assert_eq!(consumed(b"    ***\n"), None);
    assert_eq!(consumed(b"     ***\n"), None);
}

#[test]
fn hrule_counts_items_not_bytes() {
    assert_eq!(consumed(b"*  *\n"), None);
    assert_eq!(consumed(b"* *        \n"), None);
    assert_eq!(consumed(b"*  *  *\n"), Some(8));
    assert_eq!(consumed(b"-         -         -"), Some(21));
}

#[test]
fn hrule_on_empty_input() {
    assert!(is_hrule(b"").is_none());
}

#[test]
fn hrule_splits_the_input() {
    let inputs: [&[u8]; 5] =
        [b"***\n", b"  - - -\nabc\n***\n", b"___", b" * * * * \n\n", b"***\n***\n"];
    for s in inputs {
        let m = is_hrule(s).unwrap();
        assert!(m.consumed > 0);
        assert_eq!(m.consumed + m.remainder.len(), s.len());
        assert_eq!(m.remainder, &s[m.consumed..]);
    }
}

#[test]
fn hrule_rescans_only_what_is_left() {
    let s = b"***\n---\n___";
    let first = is_hrule(s).unwrap();
    assert_eq!(first.consumed, 4);
    assert_eq!(first.remainder, b"---\n___");
    let second = is_hrule(first.remainder).unwrap();
    assert_eq!(second.consumed, 4);
    assert_eq!(second.remainder, b"___");
    let third = is_hrule(second.remainder).unwrap();
    assert_eq!(third.consumed, 3);
    assert!(third.remainder.is_empty());
    assert!(is_hrule(third.remainder).is_none());
}

#[test]
fn hrule_of_items_and_spaces_matches_from_three_items_on() {
    for item in [b'*', b'-', b'_'] {
        for indent in 0..=3usize {
            for items in 0..=6usize {
                let mut s = vec![b' '; indent];
                for _ in 0..items {
                    s.push(item);
                    s.push(b' ');
                }
                let expected = if items >= 3 { Some(s.len()) } else { None };
                assert_eq!(consumed(&s), expected);
                s.push(b'\n');
                let expected = if items >= 3 { Some(s.len()) } else { None };
                assert_eq!(consumed(&s), expected);
            }
        }
    }
}

#[test]
fn hrule_of_a_million_items() {
    let mut s = vec![b'-'; 1_000_000];
    s.push(b'\n');
    s.push(b'x');
    let m = is_hrule(&s).unwrap();
    assert_eq!(m.consumed, 1_000_001);
    assert_eq!(m.remainder, b"x");
}
