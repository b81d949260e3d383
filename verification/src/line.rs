//! The two grammars of an output line, and the parser that reads them.
//!
//! A bash-style line is the word `export`, a space, optional further white
//! space, a name, `="`, a value and a closing `"`. A dotenv-style line is a
//! name, `=` and a value; a value wrapped in one pair of double quotes loses
//! them. A name is one or more ASCII letters, digits or underscores. A value is
//! any text without a line feed; nothing in it is escaped.

use crate::chars::{is_name_char, is_space_char, lemma_classes_apart, name_char, space_char};
use crate::text::{chars_of, text_of};
use vstd::prelude::*;

verus! {

/// The seven characters that open a bash-style line: `export` and one space.
pub open spec fn export_prefix() -> Seq<char> {
    seq!['e', 'x', 'p', 'o', 'r', 't', ' ']
}

/// `s` is one or more name characters.
pub open spec fn is_name(s: Seq<char>) -> bool {
    s.len() > 0 && forall|i: int| 0 <= i < s.len() ==> is_name_char(#[trigger] s[i])
}

/// `s` is empty or holds white space only.
pub open spec fn is_blank(s: Seq<char>) -> bool {
    forall|i: int| 0 <= i < s.len() ==> is_space_char(#[trigger] s[i])
}

/// `s` holds no line feed.
pub open spec fn is_value(s: Seq<char>) -> bool {
    forall|i: int| 0 <= i < s.len() ==> #[trigger] s[i] != '\n'
}

/// The bash-style line with white space `pad` after `export `, and with the
/// given name and value.
pub open spec fn bash_line(pad: Seq<char>, name: Seq<char>, value: Seq<char>) -> Seq<char> {
    export_prefix() + pad + name + seq!['=', '"'] + value + seq!['"']
}

/// The dotenv-style line with the given name and the text `raw` after `=`.
pub open spec fn dotenv_line(name: Seq<char>, raw: Seq<char>) -> Seq<char> {
    name + seq!['='] + raw
}

/// `line` is written in the bash style.
pub open spec fn is_bash_line(line: Seq<char>) -> bool {
    exists|pad: Seq<char>, name: Seq<char>, value: Seq<char>|
        is_blank(pad) && is_name(name) && is_value(value) && line == #[trigger] bash_line(
            pad,
            name,
            value,
        )
}

/// `line` is written in the dotenv style.
pub open spec fn is_dotenv_line(line: Seq<char>) -> bool {
    exists|name: Seq<char>, raw: Seq<char>|
        is_name(name) && is_value(raw) && line == #[trigger] dotenv_line(name, raw)
}

/// `raw` without its first and last character where both are `"`, else `raw`.
/// A lone `"` is no pair of quotes and stays.
pub open spec fn unquote(raw: Seq<char>) -> Seq<char> {
    if raw.len() >= 2 && raw.first() == '"' && raw.last() == '"' {
        raw.subrange(1, raw.len() - 1)
    } else {
        raw
    }
}

/// `line` begins with `export` and a space.
pub open spec fn has_export_prefix(line: Seq<char>) -> bool {
    line.len() >= 7 && line.subrange(0, 7) == export_prefix()
}

/// Where the run of white space that starts at `from` ends.
pub open spec fn space_run_end(s: Seq<char>, from: int) -> int
    decreases s.len() - from,
{
    if 0 <= from < s.len() && is_space_char(s[from]) {
        space_run_end(s, from + 1)
    } else {
        from
    }
}

/// Where the run of name characters that starts at `from` ends.
pub open spec fn name_run_end(s: Seq<char>, from: int) -> int
    decreases s.len() - from,
{
    if 0 <= from < s.len() && is_name_char(s[from]) {
        name_run_end(s, from + 1)
    } else {
        from
    }
}

/// Name and value of a line that begins with `export `, read in the bash style.
pub open spec fn bash_pair(line: Seq<char>) -> Option<(Seq<char>, Seq<char>)> {
    let a = space_run_end(line, 7);
    let b = name_run_end(line, a);
    let n = line.len() as int;
    if has_export_prefix(line) && a < b && b + 3 <= n && line[b] == '=' && line[b + 1] == '"'
        && line[n - 1] == '"' && is_value(line.subrange(b + 2, n - 1)) {
        Some((line.subrange(a, b), line.subrange(b + 2, n - 1)))
    } else {
        None
    }
}

/// Name and value of a line read in the dotenv style.
pub open spec fn dotenv_pair(line: Seq<char>) -> Option<(Seq<char>, Seq<char>)> {
    let b = name_run_end(line, 0);
    let n = line.len() as int;
    if 0 < b < n && line[b] == '=' && is_value(line.subrange(b + 1, n)) {
        Some((line.subrange(0, b), unquote(line.subrange(b + 1, n))))
    } else {
        None
    }
}

/// The name and value that `line` gives, if it gives any. A line that begins
/// with `export ` is read in the bash style and in no other; every other line
/// is read in the dotenv style.
pub open spec fn line_pair(line: Seq<char>) -> Option<(Seq<char>, Seq<char>)> {
    if has_export_prefix(line) {
        bash_pair(line)
    } else {
        dotenv_pair(line)
    }
}

/// `space_run_end` gives the first position from `from` on that holds no
/// white space.
pub proof fn lemma_space_run(s: Seq<char>, from: int)
    requires
        0 <= from <= s.len(),
    ensures
        from <= space_run_end(s, from) <= s.len(),
        forall|i: int| from <= i < space_run_end(s, from) ==> is_space_char(#[trigger] s[i]),
        space_run_end(s, from) < s.len() ==> !is_space_char(s[space_run_end(s, from)]),
    decreases s.len() - from,
{
    if from < s.len() && is_space_char(s[from]) {
        lemma_space_run(s, from + 1);
    }
}

/// A run of white space from `from` that stops at `to` ends at `to`.
pub proof fn lemma_space_run_to(s: Seq<char>, from: int, to: int)
    requires
        0 <= from <= to <= s.len(),
        forall|i: int| from <= i < to ==> is_space_char(#[trigger] s[i]),
        to < s.len() ==> !is_space_char(s[to]),
    ensures
        space_run_end(s, from) == to,
    decreases to - from,
{
    if from < to {
        lemma_space_run_to(s, from + 1, to);
    }
}

/// `name_run_end` gives the first position from `from` on that holds no name
/// character.
pub proof fn lemma_name_run(s: Seq<char>, from: int)
    requires
        0 <= from <= s.len(),
    ensures
        from <= name_run_end(s, from) <= s.len(),
        forall|i: int| from <= i < name_run_end(s, from) ==> is_name_char(#[trigger] s[i]),
        name_run_end(s, from) < s.len() ==> !is_name_char(s[name_run_end(s, from)]),
    decreases s.len() - from,
{
    if from < s.len() && is_name_char(s[from]) {
        lemma_name_run(s, from + 1);
    }
}

/// A run of name characters from `from` that stops at `to` ends at `to`.
pub proof fn lemma_name_run_to(s: Seq<char>, from: int, to: int)
    requires
        0 <= from <= to <= s.len(),
        forall|i: int| from <= i < to ==> is_name_char(#[trigger] s[i]),
        to < s.len() ==> !is_name_char(s[to]),
    ensures
        name_run_end(s, from) == to,
    decreases to - from,
{
    if from < to {
        lemma_name_run_to(s, from + 1, to);
    }
}

/// A bash-style line gives its name and, as its value, exactly the text
/// between the quotes.
pub proof fn law_bash_line(pad: Seq<char>, name: Seq<char>, value: Seq<char>)
    requires
        is_blank(pad),
        is_name(name),
        is_value(value),
    ensures
        line_pair(bash_line(pad, name, value)) == Some((name, value)),
{
    let line = bash_line(pad, name, value);
    let a = 7 + pad.len() as int;
    let b = a + name.len() as int;
    let n = line.len() as int;
    assert(line.subrange(0, 7) =~= export_prefix());
    assert forall|i: int| 7 <= i < a implies is_space_char(#[trigger] line[i]) by {
        assert(line[i] == pad[i - 7]);
    }
    assert forall|i: int| a <= i < b implies is_name_char(#[trigger] line[i]) by {
        assert(line[i] == name[i - a]);
    }
    assert(line[a] == name[0]);
    lemma_classes_apart(name[0]);
    lemma_classes_apart('=');
    lemma_space_run_to(line, 7, a);
    lemma_name_run_to(line, a, b);
    assert(line.subrange(a, b) =~= name);
    assert(line.subrange(b + 2, n - 1) =~= value);
}

/// A dotenv-style line does not begin with `export` and a space.
proof fn lemma_dotenv_line_has_no_export_prefix(name: Seq<char>, raw: Seq<char>)
    requires
        is_name(name),
    ensures
        !has_export_prefix(dotenv_line(name, raw)),
{
    let line = dotenv_line(name, raw);
    let b = name.len() as int;
    if has_export_prefix(line) {
        let head = line.subrange(0, 7);
        if b >= 7 {
            assert(head[6] == name[6]);
            lemma_classes_apart(name[6]);
        } else {
            assert(head[b] == '=');
        }
    }
}

/// A dotenv-style line gives its name and the text after `=`, without the
/// quotes where that text begins and ends with one.
pub proof fn law_dotenv_line(name: Seq<char>, raw: Seq<char>)
    requires
        is_name(name),
        is_value(raw),
    ensures
        line_pair(dotenv_line(name, raw)) == Some((name, unquote(raw))),
{
    let line = dotenv_line(name, raw);
    let b = name.len() as int;
    let n = line.len() as int;
    assert forall|i: int| 0 <= i < b implies is_name_char(#[trigger] line[i]) by {
        assert(line[i] == name[i]);
    }
    lemma_classes_apart('=');
    lemma_name_run_to(line, 0, b);
    assert(line.subrange(0, b) =~= name);
    assert(line.subrange(b + 1, n) =~= raw);
    lemma_dotenv_line_has_no_export_prefix(name, raw);
}

/// No line is written in both styles.
pub proof fn law_styles_apart(line: Seq<char>)
    ensures
        !(is_bash_line(line) && is_dotenv_line(line)),
{
    if is_bash_line(line) && is_dotenv_line(line) {
        let (pad, name, value) = choose|pad: Seq<char>, name: Seq<char>, value: Seq<char>|
            is_blank(pad) && is_name(name) && is_value(value) && line == #[trigger] bash_line(
                pad,
                name,
                value,
            );
        let (key, raw) = choose|key: Seq<char>, raw: Seq<char>|
            is_name(key) && is_value(raw) && line == #[trigger] dotenv_line(key, raw);
        assert(bash_line(pad, name, value).subrange(0, 7) =~= export_prefix());
        lemma_dotenv_line_has_no_export_prefix(key, raw);
    }
}

/// The name of a pair is a name, and its value holds no line feed.
pub proof fn law_pair_is_well_formed(line: Seq<char>)
    ensures
        line_pair(line) matches Some(pair) ==> is_name(pair.0) && is_value(pair.1),
{
    let n = line.len() as int;
    if line_pair(line) is None {
    } else if has_export_prefix(line) {
        let a = space_run_end(line, 7);
        lemma_space_run(line, 7);
        lemma_name_run(line, a);
    } else {
        let b = name_run_end(line, 0);
        lemma_name_run(line, 0);
        let raw = line.subrange(b + 1, n);
        let value = unquote(raw);
        assert forall|i: int| 0 <= i < value.len() implies #[trigger] value[i] != '\n' by {
            if value.len() < raw.len() {
                assert(value[i] == raw[i + 1]);
            }
        }
    }
}

/// An empty line, or one of white space only, gives no pair.
pub proof fn law_blank_line(line: Seq<char>)
    requires
        is_blank(line),
    ensures
        line_pair(line) is None,
{
    if has_export_prefix(line) {
        assert(line.subrange(0, 7)[0] == 'e');
        assert(!is_space_char(line[0]));
    } else if line.len() > 0 {
        lemma_classes_apart(line[0]);
    }
}

/// A line that gives a pair is written in one of the two styles: a line in
/// neither style gives no pair.
pub proof fn law_unmatched_line(line: Seq<char>)
    requires
        !is_bash_line(line),
        !is_dotenv_line(line),
    ensures
        line_pair(line) is None,
{
    let n = line.len() as int;
    if has_export_prefix(line) {
        if bash_pair(line) is Some {
            let a = space_run_end(line, 7);
            let b = name_run_end(line, a);
            lemma_space_run(line, 7);
            lemma_name_run(line, a);
            let pad = line.subrange(7, a);
            let name = line.subrange(a, b);
            let value = line.subrange(b + 2, n - 1);
            assert(line =~= bash_line(pad, name, value));
        }
    } else if dotenv_pair(line) is Some {
        let b = name_run_end(line, 0);
        lemma_name_run(line, 0);
        let name = line.subrange(0, b);
        let raw = line.subrange(b + 1, n);
        assert(line =~= dotenv_line(name, raw));
    }
}

/// The end of the white space that starts at `from`.
fn skip_spaces(chars: &Vec<char>, from: usize) -> (end: usize)
    requires
        from <= chars@.len(),
    ensures
        end == space_run_end(chars@, from as int),
        from <= end <= chars@.len(),
{
    let mut i: usize = from;
    while i < chars.len() && space_char(chars[i])
        invariant
            from <= i <= chars@.len(),
            space_run_end(chars@, i as int) == space_run_end(chars@, from as int),
        decreases chars@.len() - i,
    {
        i += 1;
    }
    i
}

/// The end of the name characters that start at `from`.
fn skip_name(chars: &Vec<char>, from: usize) -> (end: usize)
    requires
        from <= chars@.len(),
    ensures
        end == name_run_end(chars@, from as int),
        from <= end <= chars@.len(),
{
    let mut i: usize = from;
    while i < chars.len() && name_char(chars[i])
        invariant
            from <= i <= chars@.len(),
            name_run_end(chars@, i as int) == name_run_end(chars@, from as int),
        decreases chars@.len() - i,
    {
        i += 1;
    }
    i
}

/// Tells whether `chars[from..to]` holds no line feed.
fn holds_no_line_feed(chars: &Vec<char>, from: usize, to: usize) -> (b: bool)
    requires
        from <= to <= chars@.len(),
    ensures
        b == is_value(chars@.subrange(from as int, to as int)),
{
    let ghost part = chars@.subrange(from as int, to as int);
    let mut i: usize = from;
    while i < to
        invariant
            from <= i <= to <= chars@.len(),
            part == chars@.subrange(from as int, to as int),
            forall|j: int| 0 <= j < i - from ==> #[trigger] part[j] != '\n',
        decreases to - i,
    {
        if chars[i] == '\n' {
            assert(part[i - from] == '\n');
            return false;
        }
        i += 1;
    }
    true
}

/// Tells whether the line begins with `export` and a space.
fn starts_with_export(chars: &Vec<char>) -> (b: bool)
    ensures
        b == has_export_prefix(chars@),
{
    if chars.len() < 7 {
        return false;
    }
    let b = chars[0] == 'e' && chars[1] == 'x' && chars[2] == 'p' && chars[3] == 'o' && chars[4]
        == 'r' && chars[5] == 't' && chars[6] == ' ';
    proof {
        let head = chars@.subrange(0, 7);
        if b {
            assert(head =~= export_prefix());
        } else {
            assert(head[0] == chars@[0] && head[1] == chars@[1] && head[2] == chars@[2] && head[3]
                == chars@[3] && head[4] == chars@[4] && head[5] == chars@[5] && head[6]
                == chars@[6]);
        }
    }
    b
}

/// Tells whether the line is empty or holds white space only.
pub fn blank(chars: &Vec<char>) -> (b: bool)
    ensures
        b == is_blank(chars@),
{
    let end = skip_spaces(chars, 0);
    proof {
        lemma_space_run(chars@, 0);
    }
    end == chars.len()
}

/// Reads a line that begins with `export ` in the bash style.
fn read_bash(chars: &Vec<char>) -> (pair: Option<(String, String)>)
    requires
        has_export_prefix(chars@),
    ensures
        pair.deep_view() == bash_pair(chars@),
{
    let n = chars.len();
    let a = skip_spaces(chars, 7);
    let b = skip_name(chars, a);
    if a < b && n - b >= 3 && chars[b] == '=' && chars[b + 1] == '"' && chars[n - 1] == '"'
        && holds_no_line_feed(chars, b + 2, n - 1) {
        let name = text_of(chars, a, b);
        let value = text_of(chars, b + 2, n - 1);
        Some((name, value))
    } else {
        None
    }
}

/// Reads a line in the dotenv style.
fn read_dotenv(chars: &Vec<char>) -> (pair: Option<(String, String)>)
    ensures
        pair.deep_view() == dotenv_pair(chars@),
{
    let n = chars.len();
    let b = skip_name(chars, 0);
    if 0 < b && b < n && chars[b] == '=' && holds_no_line_feed(chars, b + 1, n) {
        let name = text_of(chars, 0, b);
        let quoted = n - b >= 3 && chars[b + 1] == '"' && chars[n - 1] == '"';
        let value = if quoted {
            text_of(chars, b + 2, n - 1)
        } else {
            text_of(chars, b + 1, n)
        };
        proof {
            let raw = chars@.subrange(b + 1, n as int);
            if quoted {
                assert(raw.subrange(1, raw.len() - 1) =~= chars@.subrange(b + 2, n - 1));
            }
        }
        Some((name, value))
    } else {
        None
    }
}

/// Reads one line of output: the name and the value that it gives, or `None`
/// where it is written in neither style.
pub fn parse_chars(chars: &Vec<char>) -> (pair: Option<(String, String)>)
    ensures
        pair.deep_view() == line_pair(chars@),
{
    if starts_with_export(chars) {
        read_bash(chars)
    } else {
        read_dotenv(chars)
    }
}

/// Reads one line of output: the name and the value that it gives, or `None`
/// where it is written in neither style.
pub fn parse_line(line: &str) -> (pair: Option<(String, String)>)
    ensures
        pair.deep_view() == line_pair(line@),
{
    let chars = chars_of(line);
    parse_chars(&chars)
}

} // verus!
