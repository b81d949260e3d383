//! From the text that an export prints to the pairs that it holds.
//!
//! The text is cut into lines at each line feed; a carriage return just before
//! the line feed belongs to the line ending. The last line needs no line feed,
//! and keeps a carriage return at its end. Each line is then read on its own,
//! and the pairs come out in the order of their lines.

use crate::line::{blank, is_value, law_blank_line, line_pair, parse_chars};
use crate::text::{chars_of, text_of};
use vstd::prelude::*;

verus! {

/// Position of the first line feed at or after `from`, or the length of `text`
/// where none follows.
pub open spec fn line_end(text: Seq<char>, from: int) -> int
    decreases text.len() - from,
{
    if 0 <= from < text.len() && text[from] != '\n' {
        line_end(text, from + 1)
    } else {
        from
    }
}

/// `line_end` lies between `from` and the end of `text`, no line feed stands
/// before it, and one stands at it unless it is the end of `text`.
pub proof fn lemma_line_end(text: Seq<char>, from: int)
    requires
        0 <= from <= text.len(),
    ensures
        from <= line_end(text, from) <= text.len(),
        forall|i: int| from <= i < line_end(text, from) ==> #[trigger] text[i] != '\n',
        line_end(text, from) < text.len() ==> text[line_end(text, from)] == '\n',
    decreases text.len() - from,
{
    if from < text.len() && text[from] != '\n' {
        lemma_line_end(text, from + 1);
    }
}

/// `line` without the carriage return at its end, if it has one.
pub open spec fn strip_cr(line: Seq<char>) -> Seq<char> {
    if line.len() > 0 && line.last() == '\r' {
        line.drop_last()
    } else {
        line
    }
}

/// The lines of `text` from position `from` on.
pub open spec fn lines_from(text: Seq<char>, from: int) -> Seq<Seq<char>>
    decreases text.len() - from,
    via lines_from_decreases
{
    if from < 0 || from >= text.len() {
        Seq::empty()
    } else {
        let end = line_end(text, from);
        if end < text.len() {
            seq![strip_cr(text.subrange(from, end))] + lines_from(text, end + 1)
        } else {
            seq![text.subrange(from, end)]
        }
    }
}

#[via_fn]
proof fn lines_from_decreases(text: Seq<char>, from: int) {
    if 0 <= from < text.len() {
        lemma_line_end(text, from);
    }
}

/// The lines of `text`, without their line endings.
pub open spec fn lines_of(text: Seq<char>) -> Seq<Seq<char>> {
    lines_from(text, 0)
}

/// The pairs that the lines give, in the order of the lines.
pub open spec fn pairs_of(lines: Seq<Seq<char>>) -> Seq<(Seq<char>, Seq<char>)>
    decreases lines.len(),
{
    if lines.len() == 0 {
        Seq::empty()
    } else {
        let before = pairs_of(lines.drop_last());
        match line_pair(lines.last()) {
            Some(pair) => before.push(pair),
            None => before,
        }
    }
}

/// The pairs that the text of an export holds.
pub open spec fn output_pairs(text: Seq<char>) -> Seq<(Seq<char>, Seq<char>)> {
    pairs_of(lines_of(text))
}

/// The line that starts at `from` ends where it ends in the rest of the text.
proof fn lemma_line_end_of_rest(text: Seq<char>, from: int, at: int)
    requires
        0 <= from <= at <= text.len(),
    ensures
        line_end(text, at) == from + line_end(text.subrange(from, text.len() as int), at - from),
    decreases text.len() - at,
{
    let rest = text.subrange(from, text.len() as int);
    if at < text.len() {
        assert(rest[at - from] == text[at]);
        if text[at] != '\n' {
            lemma_line_end_of_rest(text, from, at + 1);
        }
    }
}

/// The lines from `from` on are the lines of the rest of the text.
proof fn lemma_lines_of_rest(text: Seq<char>, from: int)
    requires
        0 <= from <= text.len(),
    ensures
        lines_from(text, from) == lines_of(text.subrange(from, text.len() as int)),
    decreases text.len() - from,
{
    let n = text.len() as int;
    let rest = text.subrange(from, n);
    if from < n {
        let end = line_end(text, from);
        lemma_line_end(text, from);
        lemma_line_end_of_rest(text, from, from);
        assert(text.subrange(from, end) =~= rest.subrange(0, end - from));
        if end < n {
            lemma_lines_of_rest(text, end + 1);
            lemma_lines_of_rest(rest, end + 1 - from);
            assert(rest.subrange(end + 1 - from, rest.len() as int) =~= text.subrange(end + 1, n));
        }
    }
}

/// The pairs of two runs of lines are those of the first, then those of the
/// second.
proof fn lemma_pairs_of_both(first: Seq<Seq<char>>, second: Seq<Seq<char>>)
    ensures
        pairs_of(first + second) == pairs_of(first) + pairs_of(second),
    decreases second.len(),
{
    if second.len() == 0 {
        assert(first + second =~= first);
        assert(pairs_of(first) + pairs_of(second) =~= pairs_of(first));
    } else {
        let both = first + second;
        assert(both.drop_last() =~= first + second.drop_last());
        assert(both.last() == second.last());
        lemma_pairs_of_both(first, second.drop_last());
        match line_pair(second.last()) {
            Some(pair) => {
                assert(pairs_of(first) + pairs_of(second.drop_last()).push(pair) =~= (pairs_of(
                    first,
                ) + pairs_of(second.drop_last())).push(pair));
            },
            None => {},
        }
    }
}

/// A text that begins with a line and its line feed has that line first,
/// without the carriage return at its end if it has one, and then the lines of
/// what follows the line feed.
pub proof fn law_first_line(line: Seq<char>, rest: Seq<char>)
    requires
        is_value(line),
    ensures
        lines_of(line + seq!['\n'] + rest) == seq![strip_cr(line)] + lines_of(rest),
{
    let text = line + seq!['\n'] + rest;
    let end = line.len() as int;
    assert forall|i: int| 0 <= i < end implies #[trigger] text[i] != '\n' by {
        assert(text[i] == line[i]);
    }
    assert(text[end] == '\n');
    lemma_line_end(text, 0);
    assert(line_end(text, 0) == end) by {
        if line_end(text, 0) > end {
            assert(text[end] != '\n');
        }
    }
    assert(text.subrange(0, end) =~= line);
    assert(text.subrange(end + 1, text.len() as int) =~= rest);
    lemma_lines_of_rest(text, end + 1);
}

/// A text without a line feed is its own single line, unless it is empty: an
/// empty text has no line.
pub proof fn law_last_line(line: Seq<char>)
    requires
        is_value(line),
    ensures
        line.len() == 0 ==> lines_of(line) == Seq::<Seq<char>>::empty(),
        line.len() > 0 ==> lines_of(line) == seq![line],
{
    if line.len() > 0 {
        lemma_line_end(line, 0);
        let end = line_end(line, 0);
        if end < line.len() {
            assert(line[end] != '\n');
        }
        assert(line.subrange(0, end) =~= line);
    }
}

/// No line of a text holds a line feed.
pub proof fn law_lines_hold_no_line_feed(text: Seq<char>, k: int)
    requires
        0 <= k < lines_of(text).len(),
    ensures
        is_value(lines_of(text)[k]),
{
    lemma_lines_from_hold_no_line_feed(text, 0, k);
}

/// No line of a text from `from` on holds a line feed.
proof fn lemma_lines_from_hold_no_line_feed(text: Seq<char>, from: int, k: int)
    requires
        0 <= from <= text.len(),
        0 <= k < lines_from(text, from).len(),
    ensures
        is_value(lines_from(text, from)[k]),
    decreases text.len() - from,
{
    let n = text.len() as int;
    let end = line_end(text, from);
    lemma_line_end(text, from);
    let whole = text.subrange(from, end);
    assert forall|i: int| 0 <= i < whole.len() implies #[trigger] whole[i] != '\n' by {
        assert(whole[i] == text[from + i]);
    }
    if end < n {
        if k == 0 {
            let line = strip_cr(whole);
            assert forall|i: int| 0 <= i < line.len() implies #[trigger] line[i] != '\n' by {
                assert(line[i] == whole[i]);
            }
        } else {
            lemma_lines_from_hold_no_line_feed(text, end + 1, k - 1);
            assert(lines_from(text, from)[k] == lines_from(text, end + 1)[k - 1]);
        }
    }
}

/// The pairs of a text that begins with a line and its line feed are the pair
/// of that line, if it gives one, and then the pairs of what follows.
pub proof fn law_output_by_line(line: Seq<char>, rest: Seq<char>)
    requires
        is_value(line),
    ensures
        output_pairs(line + seq!['\n'] + rest) == match line_pair(strip_cr(line)) {
            Some(pair) => seq![pair] + output_pairs(rest),
            None => output_pairs(rest),
        },
{
    law_first_line(line, rest);
    let first = seq![strip_cr(line)];
    lemma_pairs_of_both(first, lines_of(rest));
    assert(first.drop_last() =~= Seq::<Seq<char>>::empty());
    assert(pairs_of(first.drop_last()) =~= Seq::empty());
    match line_pair(strip_cr(line)) {
        Some(pair) => {
            assert(pairs_of(first) =~= seq![pair]);
        },
        None => {
            assert(pairs_of(first) + output_pairs(rest) =~= output_pairs(rest));
        },
    }
}

/// The end of the line that starts at `from`.
fn find_line_end(chars: &Vec<char>, from: usize) -> (end: usize)
    requires
        from <= chars@.len(),
    ensures
        end == line_end(chars@, from as int),
        from <= end <= chars@.len(),
{
    let mut i: usize = from;
    while i < chars.len() && chars[i] != '\n'
        invariant
            from <= i <= chars@.len(),
            line_end(chars@, i as int) == line_end(chars@, from as int),
        decreases chars@.len() - i,
    {
        i += 1;
    }
    i
}

/// Cuts `text` into its lines.
pub fn split_lines(text: &str) -> (lines: Vec<String>)
    ensures
        lines.deep_view() == lines_of(text@),
{
    let chars = chars_of(text);
    let n = chars.len();
    let mut lines: Vec<String> = Vec::new();
    let mut from: usize = 0;
    while from < n
        invariant
            chars@ == text@,
            n == chars@.len(),
            from <= n,
            lines.deep_view() + lines_from(chars@, from as int) == lines_of(chars@),
        decreases n - from,
    {
        let end = find_line_end(&chars, from);
        let ghost before = lines.deep_view();
        if end < n {
            let stop = if from < end && chars[end - 1] == '\r' {
                end - 1
            } else {
                end
            };
            let line = text_of(&chars, from, stop);
            proof {
                let whole = chars@.subrange(from as int, end as int);
                assert(line@ =~= strip_cr(whole));
            }
            lines.push(line);
            proof {
                assert(lines.deep_view() =~= before.push(line@));
                assert(before.push(line@) + lines_from(chars@, end + 1) =~= before + lines_from(
                    chars@,
                    from as int,
                ));
            }
            from = end + 1;
        } else {
            let line = text_of(&chars, from, end);
            lines.push(line);
            proof {
                assert(lines.deep_view() =~= before.push(line@));
                assert(before.push(line@) + lines_from(chars@, n as int) =~= before + lines_from(
                    chars@,
                    from as int,
                ));
            }
            from = n;
        }
    }
    proof {
        assert(lines.deep_view() + lines_from(chars@, n as int) =~= lines.deep_view());
    }
    lines
}

/// Reads each line and collects the pairs, in the order of the lines. Blank
/// lines are passed over unread.
pub fn parse_lines(lines: &Vec<String>) -> (pairs: Vec<(String, String)>)
    ensures
        pairs.deep_view() == pairs_of(lines.deep_view()),
{
    let mut pairs: Vec<(String, String)> = Vec::new();
    let mut i: usize = 0;
    while i < lines.len()
        invariant
            i <= lines@.len(),
            pairs.deep_view() == pairs_of(lines.deep_view().take(i as int)),
        decreases lines@.len() - i,
    {
        let chars = chars_of(lines[i].as_str());
        let ghost before = pairs.deep_view();
        proof {
            let read = lines.deep_view().take(i + 1);
            assert(read.drop_last() =~= lines.deep_view().take(i as int));
            assert(read.last() == chars@);
        }
        if blank(&chars) {
            proof {
                law_blank_line(chars@);
            }
        } else {
            match parse_chars(&chars) {
                Some(pair) => {
                    let ghost shown = pair.deep_view();
                    pairs.push(pair);
                    assert(pairs.deep_view() =~= before.push(shown));
                },
                None => {},
            }
        }
        i += 1;
    }
    proof {
        assert(lines.deep_view().take(i as int) =~= lines.deep_view());
    }
    pairs
}

/// Reads the text that an export printed: the pairs of its lines, in order.
pub fn parse_output(text: &str) -> (pairs: Vec<(String, String)>)
    ensures
        pairs.deep_view() == output_pairs(text@),
{
    let lines = split_lines(text);
    parse_lines(&lines)
}

} // verus!
