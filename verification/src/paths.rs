//! The parts of a path, read through `std::path`, and the relative form of
//! a path. Paths are held as text; what the functions here return is what
//! the standard library finds for the platform the crate is built for.

use vstd::prelude::*;
use vstd::slice::slice_subrange;
use crate::chars::option_text;
use crate::chars::string_from_chars;
use crate::chars::to_chars;

verus! {

/// The extension of a path's file name, as `Path::extension` finds it.
pub uninterp spec fn path_extension(path: Seq<char>) -> Option<Seq<char>>;

/// The file name of a path without its extension, as `Path::file_stem`
/// finds it.
pub uninterp spec fn path_file_stem(path: Seq<char>) -> Option<Seq<char>>;

/// The last component of a path, as `Path::file_name` finds it.
pub uninterp spec fn path_file_name(path: Seq<char>) -> Option<Seq<char>>;

/// A path without its last component, as `Path::parent` finds it.
pub uninterp spec fn path_parent(path: Seq<char>) -> Option<Seq<char>>;

/// `rest` adjoined to `base`, as `Path::join` builds it.
pub uninterp spec fn path_join(base: Seq<char>, rest: Seq<char>) -> Seq<char>;

/// Whether a character separates the components of a path, as
/// `std::path::is_separator` tells it for the platform the crate is built
/// for.
pub uninterp spec fn char_is_separator(c: char) -> bool;

/// Calls `std::path::is_separator`. The result says whether the character
/// is a path separator on this platform; the standard documentation shows
/// the slash as one on every platform.
#[verifier::external_body]
pub(crate) fn is_separator(c: char) -> (b: bool)
    ensures
        b == char_is_separator(c),
        c == '/' ==> b,
{
    std::path::is_separator(c)
}

/// The first index at or after `i` that holds no separator, or the length.
pub open spec fn skip_separators(path: Seq<char>, i: int) -> int
    decreases path.len() - i,
{
    if 0 <= i < path.len() && char_is_separator(path[i]) {
        skip_separators(path, i + 1)
    } else {
        i
    }
}

/// A path made relative: the path without the separators it starts with,
/// so that it names the same components from wherever it is joined to.
pub open spec fn without_root(path: Seq<char>) -> Seq<char> {
    path.subrange(skip_separators(path, 0), path.len() as int)
}

/// Where the leading separators end: within the path, after nothing but
/// separators, and before a character that is none.
pub proof fn lemma_skip_separators_bounds(path: Seq<char>, i: int)
    requires
        0 <= i <= path.len(),
    ensures
        i <= skip_separators(path, i) <= path.len(),
        forall|k: int| i <= k < skip_separators(path, i) ==> char_is_separator(#[trigger] path[k]),
        skip_separators(path, i) < path.len() ==> !char_is_separator(
            path[skip_separators(path, i)],
        ),
    decreases path.len() - i,
{
    if i < path.len() && char_is_separator(path[i]) {
        lemma_skip_separators_bounds(path, i + 1);
    }
}

/// A path made relative starts with no separator, is the path itself where
/// the path starts with none, and is the end of the path in any case.
pub proof fn lemma_without_root(path: Seq<char>)
    ensures
        without_root(path).len() > 0 ==> !char_is_separator(without_root(path)[0]),
        path.len() > 0 && !char_is_separator(path[0]) ==> without_root(path) == path,
        path.len() == 0 ==> without_root(path) == path,
        without_root(path).is_suffix_of(path),
{
    lemma_skip_separators_bounds(path, 0);
    let start = skip_separators(path, 0);
    if start == 0 {
        assert(without_root(path) =~= path);
    }
    assert(path.subrange(0, start) + without_root(path) =~= path);
}

/// Makes a path relative: drops the separators it starts with. The result
/// starts with no separator; a path that starts with none is returned as
/// it is.
pub fn make_relative(path: &str) -> (r: String)
    ensures
        r@ == without_root(path@),
        r@.len() > 0 ==> !char_is_separator(r@[0]),
        path@.len() > 0 && !char_is_separator(path@[0]) ==> r@ == path@,
{
    let chars = to_chars(path);
    let mut i: usize = 0;
    while i < chars.len() && is_separator(chars[i])
        invariant
            i <= chars.len(),
            skip_separators(chars@, 0) == skip_separators(chars@, i as int),
        decreases chars.len() - i,
    {
        i += 1;
    }
    proof {
        lemma_without_root(path@);
    }
    string_from_chars(slice_subrange(chars.as_slice(), i, chars.len()))
}

/// Calls `Path::extension` on the path that `path` spells. The result is
/// the extension the standard library finds, as text; `None` where it
/// finds none.
#[verifier::external_body]
pub(crate) fn extension(path: &str) -> (r: Option<String>)
    ensures
        option_text(r) == path_extension(path@),
{
    std::path::Path::new(path).extension().map(|e| e.to_string_lossy().into_owned())
}

/// Calls `Path::file_stem` on the path that `path` spells. The result is
/// the stem the standard library finds, as text; `None` where it finds none.
#[verifier::external_body]
pub(crate) fn file_stem(path: &str) -> (r: Option<String>)
    ensures
        option_text(r) == path_file_stem(path@),
{
    std::path::Path::new(path).file_stem().map(|e| e.to_string_lossy().into_owned())
}

/// Calls `Path::file_name` on the path that `path` spells. The result is
/// the last component the standard library finds, as text; `None` where it
/// finds none.
#[verifier::external_body]
pub(crate) fn file_name(path: &str) -> (r: Option<String>)
    ensures
        option_text(r) == path_file_name(path@),
{
    std::path::Path::new(path).file_name().map(|e| e.to_string_lossy().into_owned())
}

/// Calls `Path::parent` on the path that `path` spells. The result is the
/// parent the standard library finds, as text; `None` where the path has
/// none.
#[verifier::external_body]
pub(crate) fn parent(path: &str) -> (r: Option<String>)
    ensures
        option_text(r) == path_parent(path@),
{
    std::path::Path::new(path).parent().map(|p| p.to_string_lossy().into_owned())
}

/// Calls `Path::join` on the path that `base` spells. The result is the
/// joined path the standard library builds, as text.
#[verifier::external_body]
pub(crate) fn join(base: &str, rest: &str) -> (r: String)
    ensures
        r@ == path_join(base@, rest@),
{
    std::path::Path::new(base).join(rest).to_string_lossy().into_owned()
}

} // verus!
