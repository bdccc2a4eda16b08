//! Text checks on byte lines: UTF-8 decoding and whitespace.

use vstd::prelude::*;
use vstd::utf8::{decode_utf8, valid_utf8};

verus! {

/// Whether `char::is_whitespace` holds of a character outside ASCII (the Unicode `White_Space`
/// property).
pub uninterp spec fn unicode_white_space(c: char) -> bool;

/// Whether `c` is a whitespace character: within ASCII exactly space and `\t` through `\r`.
pub open spec fn whitespace(c: char) -> bool {
    if (c as u32) < 0x80 {
        c == ' ' || (0x09 <= (c as u32) && (c as u32) <= 0x0d)
    } else {
        unicode_white_space(c)
    }
}

/// Whether every character of `s` is whitespace.
pub open spec fn all_whitespace(s: Seq<char>) -> bool {
    forall|i: int| 0 <= i < s.len() ==> whitespace(#[trigger] s[i])
}

/// Relies on `char::is_whitespace`: `' '` and `'\x09'..='\x0d'` are whitespace, other ASCII
/// characters are not, and beyond ASCII the Unicode `White_Space` property decides.
#[verifier::external_body]
fn char_is_whitespace(c: char) -> (r: bool)
    ensures
        r == whitespace(c),
        (c as u32) >= 0x80 ==> r == unicode_white_space(c),
{
    c.is_whitespace()
}

/// Relies on `std::str::from_utf8`: the bytes are borrowed as text exactly when they are valid
/// UTF-8.
#[verifier::external_body]
pub(crate) fn utf8_text(bytes: &[u8]) -> (r: Option<&str>)
    ensures
        r is Some <==> valid_utf8(bytes@),
        r matches Some(s) ==> s@ == decode_utf8(bytes@),
{
    std::str::from_utf8(bytes).ok()
}

/// Whether the given text consists of whitespace characters only (vacuously so when empty).
pub(crate) fn is_blank(string: &str) -> (r: bool)
    ensures
        r == all_whitespace(string@),
{
    let mut blank = true;
    for c in it: string.chars()
        invariant
            it.seq() == string@,
            blank <==> forall|i: int| 0 <= i < it.index() ==> whitespace(#[trigger] string@[i]),
    {
        blank = blank && char_is_whitespace(c);
    }
    blank
}

} // verus!
