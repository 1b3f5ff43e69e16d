//! Text helpers the bridge is built from: case folding and joining.

use vstd::prelude::*;
use vstd::string::*;

verus! {

/// The upper-case form of one character, where only `a` to `z` change.
pub open spec fn ascii_upper_char(c: char) -> char {
    if 'a' <= c && c <= 'z' {
        ((c as u8) - 32) as char
    } else {
        c
    }
}

/// The text with `a` to `z` replaced by `A` to `Z`.
pub open spec fn ascii_upper(s: Seq<char>) -> Seq<char> {
    s.map_values(|c: char| ascii_upper_char(c))
}

/// The upper-case form that `str::to_uppercase` gives a text, by the Unicode
/// case mapping.
pub uninterp spec fn unicode_upper(s: Seq<char>) -> Seq<char>;

/// The upper-case form of a text. A text of ASCII characters is folded
/// character by character; any other text goes through the Unicode case
/// mapping.
pub open spec fn upper(s: Seq<char>) -> Seq<char> {
    if vstd::utf8::is_ascii_chars(s) {
        ascii_upper(s)
    } else {
        unicode_upper(s)
    }
}

/// `String::push`: the character is appended to the string.
#[verifier::external_body]
pub(crate) fn push_char(s: &mut String, c: char)
    ensures
        final(s)@ == old(s)@.push(c),
{
    s.push(c)
}

/// `str::to_uppercase`: the upper-case form of the text by the Unicode case
/// mapping, a function of the text alone.
#[verifier::external_body]
pub(crate) fn unicode_uppercase(s: &str) -> (r: String)
    ensures
        r@ == unicode_upper(s@),
{
    s.to_uppercase()
}

/// The upper-case form of one character, where only `a` to `z` change.
pub fn to_ascii_upper_char(c: char) -> (r: char)
    ensures
        r == ascii_upper_char(c),
{
    if 'a' <= c && c <= 'z' {
        ((c as u8) - 32) as char
    } else {
        c
    }
}

/// The text with `a` to `z` replaced by `A` to `Z`.
pub fn to_ascii_upper(s: &str) -> (r: String)
    ensures
        r@ == ascii_upper(s@),
{
    let mut out = String::new();
    for c in it: s.chars()
        invariant
            it.seq() == s@,
            out@ == ascii_upper(s@.take(it.index() as int)),
    {
        assert(s@.take(it.index() + 1) == s@.take(it.index() as int).push(c));
        push_char(&mut out, to_ascii_upper_char(c));
    }
    assert(s@.take(s@.len() as int) == s@);
    out
}

/// The upper-case form of a text.
pub fn to_upper(s: &str) -> (r: String)
    ensures
        r@ == upper(s@),
{
    if s.is_ascii() {
        to_ascii_upper(s)
    } else {
        unicode_uppercase(s)
    }
}

/// Whether two texts are the same.
pub fn same_text(a: &str, b: &str) -> (r: bool)
    ensures
        r == (a@ == b@),
{
    let x = a.to_owned();
    let y = b.to_owned();
    x == y
}

/// The two texts, one after the other.
pub fn joined(a: &str, b: &str) -> (r: String)
    ensures
        r@ == a@ + b@,
{
    a.to_owned().concat(b)
}

} // verus!
