//! Regular-expression searches, delegated to the `regex` crate.

use vstd::prelude::*;

verus! {

/// Makes `regex::Error` known as an opaque type: the error of a pattern
/// that does not compile.
#[verifier::external_type_specification]
#[verifier::external_body]
pub struct ExRegexError(regex::Error);

/// Whether `regex::Regex::new` accepts `pattern`.
pub uninterp spec fn regex_compiles(pattern: Seq<char>) -> bool;

/// Whether the compiled `pattern` matches somewhere in `text`, as
/// `regex::Regex::is_match` reports it.
pub uninterp spec fn regex_is_match(pattern: Seq<char>, text: Seq<char>) -> bool;

/// What the first capture group holds in the leftmost match of the compiled
/// `pattern` in `text`, as `regex::Regex::captures` finds it; `None` without
/// a match or where the group took no part in it.
pub uninterp spec fn regex_first_group(pattern: Seq<char>, text: Seq<char>) -> Option<Seq<char>>;

/// `text` with every match of the compiled `pattern` replaced by
/// `replacement`, as `regex::Regex::replace_all` produces it.
pub uninterp spec fn regex_replaced(
    pattern: Seq<char>,
    text: Seq<char>,
    replacement: Seq<char>,
) -> Seq<char>;

/// Compiles `pattern` with `regex::Regex::new` and asks `Regex::is_match`
/// about `text`. Fails exactly when the pattern does not compile; otherwise
/// the result is the crate's answer for this pattern and text.
#[verifier::external_body]
pub(crate) fn is_match(pattern: &str, text: &str) -> (r: Result<bool, regex::Error>)
    ensures
        r is Ok == regex_compiles(pattern@),
        r is Ok ==> r->Ok_0 == regex_is_match(pattern@, text@),
{
    Ok(regex::Regex::new(pattern)?.is_match(text))
}

/// Compiles `pattern` with `regex::Regex::new` and runs `Regex::captures` on
/// `text`. Fails exactly when the pattern does not compile; otherwise the
/// result is the text of capture group 1 in the leftmost match, if any.
#[verifier::external_body]
pub(crate) fn first_group(pattern: &str, text: &str) -> (r: Result<Option<String>, regex::Error>)
    ensures
        r is Ok == regex_compiles(pattern@),
        r is Ok ==> (r->Ok_0 is Some) == (regex_first_group(pattern@, text@) is Some),
        r is Ok && r->Ok_0 is Some ==> r->Ok_0->Some_0@ == regex_first_group(
            pattern@,
            text@,
        )->Some_0,
{
    let re = regex::Regex::new(pattern)?;
    Ok(re.captures(text).and_then(|c| c.get(1)).map(|m| m.as_str().to_string()))
}

/// Compiles `pattern` with `regex::Regex::new` and runs `Regex::replace_all`
/// on `text`. Fails exactly when the pattern does not compile; otherwise the
/// result is the crate's replacement of every match by `replacement`.
#[verifier::external_body]
pub(crate) fn replace_all(pattern: &str, text: &str, replacement: &str) -> (r: Result<
    String,
    regex::Error,
>)
    ensures
        r is Ok == regex_compiles(pattern@),
        r is Ok ==> r->Ok_0@ == regex_replaced(pattern@, text@, replacement@),
{
    Ok(regex::Regex::new(pattern)?.replace_all(text, replacement).to_string())
}

/// Renders a `regex::Error` through its `Display` impl.
#[verifier::external_body]
pub(crate) fn error_text(e: &regex::Error) -> (s: String)
{
    e.to_string()
}

} // verus!
