//! The two character classes of the line grammars.

use vstd::prelude::*;

verus! {

/// A character that a variable name may hold: an ASCII letter, an ASCII digit
/// or the underscore.
pub open spec fn is_name_char(c: char) -> bool {
    let u = c as u32;
    ||| 0x41 <= u <= 0x5A
    ||| 0x61 <= u <= 0x7A
    ||| 0x30 <= u <= 0x39
    ||| u == 0x5F
}

/// A character with the Unicode property `White_Space`.
pub open spec fn is_space_char(c: char) -> bool {
    let u = c as u32;
    ||| 0x09 <= u <= 0x0D
    ||| u == 0x20
    ||| u == 0x85
    ||| u == 0xA0
    ||| u == 0x1680
    ||| 0x2000 <= u <= 0x200A
    ||| u == 0x2028
    ||| u == 0x2029
    ||| u == 0x202F
    ||| u == 0x205F
    ||| u == 0x3000
}

/// Tells whether `c` may stand in a variable name.
pub fn name_char(c: char) -> (b: bool)
    ensures
        b == is_name_char(c),
{
    let u: u32 = c as u32;
    (0x41 <= u && u <= 0x5A) || (0x61 <= u && u <= 0x7A) || (0x30 <= u && u <= 0x39) || u == 0x5F
}

/// Tells whether `c` is white space.
pub fn space_char(c: char) -> (b: bool)
    ensures
        b == is_space_char(c),
{
    let u: u32 = c as u32;
    (0x09 <= u && u <= 0x0D) || u == 0x20 || u == 0x85 || u == 0xA0 || u == 0x1680 || (0x2000 <= u
        && u <= 0x200A) || u == 0x2028 || u == 0x2029 || u == 0x202F || u == 0x205F || u == 0x3000
}

/// No name character is white space, and neither class holds `=` or `"`.
pub proof fn lemma_classes_apart(c: char)
    ensures
        !(is_name_char(c) && is_space_char(c)),
        is_name_char(c) ==> c != '=' && c != '"' && c != '\n',
        c == ' ' ==> is_space_char(c),
        c == '=' || c == '"' ==> !is_space_char(c) && !is_name_char(c),
{
}

} // verus!
