//! Bridges between Rust strings and character vectors, and the Unicode
//! character classes the converters rely on.

use vstd::prelude::*;

verus! {

/// The White_Space property of a character, as `char::is_whitespace` reports it.
pub uninterp spec fn char_is_whitespace(c: char) -> bool;

/// The Uppercase property of a character, as `char::is_uppercase` reports it.
pub uninterp spec fn char_is_uppercase(c: char) -> bool;

/// Whether a character is numeric, as `char::is_numeric` reports it.
pub uninterp spec fn char_is_numeric(c: char) -> bool;

/// Whether a character is alphanumeric, as `char::is_alphanumeric` reports it.
pub uninterp spec fn char_is_alphanumeric(c: char) -> bool;

/// The lowercase form of a string, as `str::to_lowercase` produces it.
pub uninterp spec fn lowercase_of(s: Seq<char>) -> Seq<char>;

/// The uppercase form of a string, as `str::to_uppercase` produces it.
pub uninterp spec fn uppercase_of(s: Seq<char>) -> Seq<char>;

/// The text of an optional string, if there is one.
pub open spec fn option_text(o: Option<String>) -> Option<Seq<char>> {
    match o {
        Some(s) => Some(s@),
        None => None,
    }
}

/// Calls `char::is_whitespace`. The result is the character's White_Space
/// property; the standard documentation shows the space and the line feed
/// among the characters that have it.
#[verifier::external_body]
pub(crate) fn is_whitespace(c: char) -> (b: bool)
    ensures
        b == char_is_whitespace(c),
        c == ' ' || c == '\n' ==> b,
{
    c.is_whitespace()
}

/// Calls `char::is_uppercase`. The result is the character's Uppercase property.
#[verifier::external_body]
pub(crate) fn is_uppercase(c: char) -> (b: bool)
    ensures
        b == char_is_uppercase(c),
{
    c.is_uppercase()
}

/// Calls `char::is_numeric`. The result says whether the character belongs to
/// one of the Unicode number categories.
#[verifier::external_body]
pub(crate) fn is_numeric(c: char) -> (b: bool)
    ensures
        b == char_is_numeric(c),
{
    c.is_numeric()
}

/// Calls `char::is_alphanumeric`. The result says whether the character is
/// alphabetic or numeric.
#[verifier::external_body]
pub(crate) fn is_alphanumeric(c: char) -> (b: bool)
    ensures
        b == char_is_alphanumeric(c),
{
    c.is_alphanumeric()
}

/// Calls `str::to_lowercase`. The result is the lowercase form of the input.
#[verifier::external_body]
pub(crate) fn to_lowercase(s: &str) -> (r: String)
    ensures
        r@ == lowercase_of(s@),
{
    s.to_lowercase()
}

/// Calls `str::to_uppercase`. The result is the uppercase form of the input.
#[verifier::external_body]
pub(crate) fn to_uppercase(s: &str) -> (r: String)
    ensures
        r@ == uppercase_of(s@),
{
    s.to_uppercase()
}

/// Collects characters into a `String` through `String::from_iter`. The
/// result holds exactly the given characters, in order.
#[verifier::external_body]
pub(crate) fn string_from_chars(v: &[char]) -> (s: String)
    ensures
        s@ == v@,
{
    String::from_iter(v.iter())
}

/// Establishes that the line feed counts as whitespace, by asking.
pub fn line_feed_is_whitespace()
    ensures
        char_is_whitespace('\n'),
{
    let asked = is_whitespace('\n');
    assert(asked);
}

/// The characters of a string, in order.
pub fn to_chars(s: &str) -> (v: Vec<char>)
    ensures
        v@ == s@,
{
    let mut v: Vec<char> = Vec::new();
    for c in it: s.chars()
        invariant
            v@ == it.seq().take(it.index()),
            it.seq() == s@,
    {
        v.push(c);
    }
    v
}

/// Appends the characters of `s` to `out`.
pub fn push_str(out: &mut Vec<char>, s: &str)
    ensures
        final(out)@ == old(out)@ + s@,
{
    let ghost before = out@;
    for c in it: s.chars()
        invariant
            out@ == before + it.seq().take(it.index()),
            it.seq() == s@,
    {
        out.push(c);
    }
}

/// Appends the characters of `piece` to `out`.
pub fn push_chars(out: &mut Vec<char>, piece: &[char])
    ensures
        final(out)@ == old(out)@ + piece@,
{
    out.extend_from_slice(piece);
}

} // verus!
