//! What the library takes from the standard library without proof: appending
//! to a string, the decoding of captured bytes, and the test for an absolute
//! path.

use vstd::prelude::*;
use vstd::utf8::{decode_utf8, valid_utf8};

verus! {

/// `String::push` appends the character to the end of the string.
pub assume_specification[ String::push ](s: &mut String, c: char)
    ensures
        final(s)@ == old(s)@.push(c),
;

/// The text that lossy UTF-8 decoding makes of `bytes`: the decoded text where
/// the bytes are valid UTF-8, and else the text in which U+FFFD stands for
/// what is invalid.
pub uninterp spec fn lossy_text(bytes: Seq<u8>) -> Seq<char>;

/// Decodes captured bytes with `String::from_utf8_lossy`. The result is a
/// function of the bytes alone, named `lossy_text`; valid UTF-8 comes out as
/// the text that it encodes. How invalid bytes are replaced is not stated.
#[verifier::external_body]
pub(crate) fn decode_lossy(bytes: &[u8]) -> (text: String)
    ensures
        text@ == lossy_text(bytes@),
        valid_utf8(bytes@) ==> text@ == decode_utf8(bytes@),
{
    String::from_utf8_lossy(bytes).into_owned()
}

/// Asks `std::path::Path::is_absolute` whether `path` is absolute. The answer
/// follows the rules of the platform, so nothing is stated of it.
#[verifier::external_body]
pub(crate) fn path_is_absolute(path: &str) -> (absolute: bool) {
    std::path::Path::new(path).is_absolute()
}

} // verus!
