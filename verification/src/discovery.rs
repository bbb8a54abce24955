//! Which files a run takes up: the extension allow-list, the ignore
//! patterns, and the filtering of discovered candidates.

use vstd::prelude::*;
use crate::chars::lowercase_of;
use crate::chars::to_chars;
use crate::chars::to_lowercase;
use crate::paths::extension;
use crate::paths::path_extension;
use crate::strings::chars_equal;
use crate::strings::contains_char;
use crate::strings::string_views;

verus! {

/// Makes `glob::PatternError` known as an opaque type: the error of a glob
/// pattern that does not compile.
#[verifier::external_type_specification]
#[verifier::external_body]
pub struct ExPatternError(glob::PatternError);

/// Whether `glob::Pattern::new` accepts `pattern`.
pub uninterp spec fn glob_compiles(pattern: Seq<char>) -> bool;

/// Whether the compiled `pattern` matches the whole of `path`, as
/// `glob::Pattern::matches` reports it, with the path separators of the
/// platform the crate is built for.
pub uninterp spec fn glob_matches(pattern: Seq<char>, path: Seq<char>) -> bool;

/// Compiles `pattern` with `glob::Pattern::new` and asks `Pattern::matches`
/// about `path`. Fails exactly when the pattern does not compile; otherwise
/// the result is the crate's answer for this pattern and path.
#[verifier::external_body]
pub(crate) fn pattern_matches(pattern: &str, path: &str) -> (r: Result<bool, glob::PatternError>)
    ensures
        r is Ok == glob_compiles(pattern@),
        r is Ok ==> r->Ok_0 == glob_matches(pattern@, path@),
{
    Ok(glob::Pattern::new(pattern)?.matches(path))
}

/// Whether a lowercase extension is one the converters handle.
pub open spec fn allowed_extension(ext: Seq<char>) -> bool {
    ||| ext == "pdf"@
    ||| ext == "doc"@
    ||| ext == "docx"@
    ||| ext == "xls"@
    ||| ext == "xlsx"@
    ||| ext == "ppt"@
    ||| ext == "pptx"@
    ||| ext == "rtf"@
    ||| ext == "txt"@
    ||| ext == "html"@
    ||| ext == "htm"@
    ||| ext == "epub"@
    ||| ext == "csv"@
    ||| ext == "jpg"@
    ||| ext == "jpeg"@
    ||| ext == "png"@
    ||| ext == "gif"@
    ||| ext == "bmp"@
    ||| ext == "tiff"@
    ||| ext == "webp"@
}

/// Whether one ignore pattern excludes `path`. A pattern that does not
/// compile excludes nothing.
pub open spec fn ignored_by(pattern: Seq<char>, path: Seq<char>) -> bool {
    glob_compiles(pattern) && glob_matches(pattern, path)
}

/// Whether some ignore pattern excludes `path`.
pub open spec fn ignored(path: Seq<char>, ignore: Seq<Seq<char>>) -> bool {
    exists|i: int| 0 <= i < ignore.len() && ignored_by(#[trigger] ignore[i], path)
}

/// Whether a file with the given extension is taken up: it has an
/// extension, and its lowercase form is on the allow-list.
pub open spec fn extension_accepted(ext: Option<Seq<char>>) -> bool {
    match ext {
        Some(e) => allowed_extension(lowercase_of(e)),
        None => false,
    }
}

/// Whether `path` is taken up: no ignore pattern excludes it, and its
/// extension is on the allow-list, whatever its case.
pub open spec fn accepted(path: Seq<char>, ignore: Seq<Seq<char>>) -> bool {
    !ignored(path, ignore) && extension_accepted(path_extension(path))
}

/// The paths of `paths` that are taken up, in their order.
pub open spec fn kept(paths: Seq<Seq<char>>, ignore: Seq<Seq<char>>) -> Seq<Seq<char>>
    decreases paths.len(),
{
    if paths.len() == 0 {
        Seq::empty()
    } else if accepted(paths.last(), ignore) {
        kept(paths.drop_last(), ignore).push(paths.last())
    } else {
        kept(paths.drop_last(), ignore)
    }
}

/// Every kept path is taken up and stood among the candidates.
pub proof fn lemma_kept_accepted(paths: Seq<Seq<char>>, ignore: Seq<Seq<char>>)
    ensures
        kept(paths, ignore).len() <= paths.len(),
        forall|k: int|
            0 <= k < kept(paths, ignore).len() ==> accepted(
                #[trigger] kept(paths, ignore)[k],
                ignore,
            ) && paths.contains(kept(paths, ignore)[k]),
        forall|p: Seq<char>| !accepted(p, ignore) ==> !kept(paths, ignore).contains(p),
    decreases paths.len(),
{
    if paths.len() > 0 {
        let rest = paths.drop_last();
        lemma_kept_accepted(rest, ignore);
        assert forall|k: int| 0 <= k < kept(paths, ignore).len() implies accepted(
            #[trigger] kept(paths, ignore)[k],
            ignore,
        ) && paths.contains(kept(paths, ignore)[k]) by {
            if k < kept(rest, ignore).len() {
                let j = choose|j: int| 0 <= j < rest.len() && rest[j] == kept(rest, ignore)[k];
                assert(paths[j] == kept(paths, ignore)[k]);
            } else {
                assert(paths[paths.len() - 1] == kept(paths, ignore)[k]);
            }
        }
    }
}

/// Filtering a single candidate keeps it exactly when it is taken up.
pub proof fn lemma_kept_single(path: Seq<char>, ignore: Seq<Seq<char>>)
    ensures
        kept(seq![path], ignore) == (if accepted(path, ignore) {
            seq![path]
        } else {
            Seq::empty()
        }),
{
    let one = seq![path];
    assert(one.last() == path);
    assert(one.drop_last().len() == 0);
    assert(kept(one.drop_last(), ignore) =~= Seq::<Seq<char>>::empty());
    if accepted(path, ignore) {
        assert(kept(one, ignore) =~= seq![path]);
    }
}

/// Filtering is idempotent: filtering an already filtered list changes
/// nothing.
pub proof fn lemma_filter_idempotent(paths: Seq<Seq<char>>, ignore: Seq<Seq<char>>)
    ensures
        kept(kept(paths, ignore), ignore) == kept(paths, ignore),
    decreases paths.len(),
{
    if paths.len() > 0 {
        let rest = paths.drop_last();
        lemma_filter_idempotent(rest, ignore);
        if accepted(paths.last(), ignore) {
            let once = kept(paths, ignore);
            assert(once.drop_last() =~= kept(rest, ignore));
            assert(once.last() == paths.last());
        }
    }
}

/// Whether a lowercase extension is one the converters handle.
pub fn is_allowed_extension(ext: &str) -> (b: bool)
    ensures
        b == allowed_extension(ext@),
{
    let e = to_chars(ext);
    let e = e.as_slice();
    chars_equal(e, to_chars("pdf").as_slice()) || chars_equal(e, to_chars("doc").as_slice())
        || chars_equal(e, to_chars("docx").as_slice()) || chars_equal(
        e,
        to_chars("xls").as_slice(),
    ) || chars_equal(e, to_chars("xlsx").as_slice()) || chars_equal(
        e,
        to_chars("ppt").as_slice(),
    ) || chars_equal(e, to_chars("pptx").as_slice()) || chars_equal(
        e,
        to_chars("rtf").as_slice(),
    ) || chars_equal(e, to_chars("txt").as_slice()) || chars_equal(
        e,
        to_chars("html").as_slice(),
    ) || chars_equal(e, to_chars("htm").as_slice()) || chars_equal(
        e,
        to_chars("epub").as_slice(),
    ) || chars_equal(e, to_chars("csv").as_slice()) || chars_equal(
        e,
        to_chars("jpg").as_slice(),
    ) || chars_equal(e, to_chars("jpeg").as_slice()) || chars_equal(
        e,
        to_chars("png").as_slice(),
    ) || chars_equal(e, to_chars("gif").as_slice()) || chars_equal(
        e,
        to_chars("bmp").as_slice(),
    ) || chars_equal(e, to_chars("tiff").as_slice()) || chars_equal(
        e,
        to_chars("webp").as_slice(),
    )
}

/// Whether some ignore pattern excludes `path`.
pub fn is_ignored(path: &str, ignore: &Vec<String>) -> (b: bool)
    ensures
        b == ignored(path@, string_views(ignore@)),
{
    let ghost patterns = string_views(ignore@);
    let mut i: usize = 0;
    while i < ignore.len()
        invariant
            i <= ignore.len(),
            patterns == string_views(ignore@),
            forall|j: int| 0 <= j < i ==> !ignored_by(#[trigger] patterns[j], path@),
        decreases ignore.len() - i,
    {
        assert(patterns[i as int] == ignore[i as int]@);
        match pattern_matches(ignore[i].as_str(), path) {
            Ok(true) => {
                return true;
            },
            Ok(false) => {},
            Err(_) => {},
        }
        i += 1;
    }
    false
}

/// Whether `path` is taken up by a run that ignores the patterns of
/// `ignore`: no pattern matches the path, and the path's extension is on
/// the allow-list, whatever its case.
pub fn should_process(path: &str, ignore: &Vec<String>) -> (b: bool)
    ensures
        b == accepted(path@, string_views(ignore@)),
{
    if is_ignored(path, ignore) {
        return false;
    }
    match extension(path) {
        Some(ext) => {
            let lowered = to_lowercase(ext.as_str());
            is_allowed_extension(lowered.as_str())
        },
        None => false,
    }
}

/// Keeps the candidates that are taken up, in their order. Every path of
/// the result is on the allow-list and matches no ignore pattern.
pub fn filter_candidates(candidates: &Vec<String>, ignore: &Vec<String>) -> (r: Vec<String>)
    ensures
        string_views(r@) == kept(string_views(candidates@), string_views(ignore@)),
        forall|k: int|
            0 <= k < r@.len() ==> accepted(#[trigger] string_views(r@)[k], string_views(ignore@)),
{
    let ghost all = string_views(candidates@);
    let ghost patterns = string_views(ignore@);
    let mut r: Vec<String> = Vec::new();
    let mut i: usize = 0;
    while i < candidates.len()
        invariant
            i <= candidates.len(),
            all == string_views(candidates@),
            patterns == string_views(ignore@),
            string_views(r@) == kept(all.take(i as int), patterns),
        decreases candidates.len() - i,
    {
        assert(all.take(i + 1).drop_last() =~= all.take(i as int));
        assert(all.take(i + 1).last() == candidates[i as int]@);
        if should_process(candidates[i].as_str(), ignore) {
            let ghost before = string_views(r@);
            r.push(candidates[i].clone());
            assert(string_views(r@) =~= before.push(candidates[i as int]@));
        }
        i += 1;
    }
    assert(all.take(candidates.len() as int) =~= all);
    proof {
        lemma_kept_accepted(all, patterns);
    }
    r
}

/// Whether an input is a glob pattern rather than a literal path: it holds
/// an asterisk or a question mark.
pub fn is_glob_pattern(input: &str) -> (b: bool)
    ensures
        b == (input@.contains('*') || input@.contains('?')),
{
    let chars = to_chars(input);
    contains_char(chars.as_slice(), '*') || contains_char(chars.as_slice(), '?')
}

} // verus!
