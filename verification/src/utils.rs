//! Small helpers on names, paths, sizes and encodings.

use vstd::prelude::*;
use vstd::utf8::valid_utf8;
use crate::chars::char_is_alphanumeric;
use crate::chars::is_alphanumeric;
use crate::chars::lowercase_of;
use crate::chars::push_str;
use crate::chars::string_from_chars;
use crate::chars::to_chars;
use crate::chars::to_lowercase;
use crate::error::reports;
use crate::error::C2mdError;
use crate::error::Failure;
use crate::paths::extension;
use crate::paths::path_extension;
use crate::strings::decimal;
use crate::strings::digit;
use crate::strings::digit_char;
use crate::strings::push_decimal;
use crate::strings::str_equal;
use crate::strings::text_is;

verus! {

/// The slug of a text, as `slug::slugify` produces it.
pub uninterp spec fn slug_of(text: Seq<char>) -> Seq<char>;

/// Whether a character may stand in a slug: a lowercase ASCII letter, a
/// digit or a hyphen.
pub open spec fn is_slug_char(c: char) -> bool {
    ('a' <= c <= 'z') || ('0' <= c <= '9') || c == '-'
}

/// Calls `slug::slugify`. The result is the crate's slug of the text; the
/// crate documents that it holds only lowercase ASCII letters, digits and
/// hyphens.
#[verifier::external_body]
pub(crate) fn slugify(text: &str) -> (r: String)
    ensures
        r@ == slug_of(text@),
        forall|i: int| 0 <= i < r@.len() ==> is_slug_char(#[trigger] r@[i]),
{
    slug::slugify(text)
}

/// Calls `uuid::Uuid::new_v4` and renders the identifier in its hyphenated
/// form, which is 36 characters long. The identifier is random: nothing
/// else is known of it. The crate panics where the system cannot supply
/// random bytes, which no argument can rule out.
#[verifier::external_body]
pub(crate) fn random_uuid() -> (r: String)
    ensures
        r@.len() == 36,
{
    uuid::Uuid::new_v4().to_string()
}

/// Calls `std::str::from_utf8` and reports whether the bytes are valid UTF-8.
#[verifier::external_body]
pub(crate) fn is_utf8(content: &[u8]) -> (b: bool)
    ensures
        b == valid_utf8(content@),
{
    std::str::from_utf8(content).is_ok()
}

/// The anchor text of a heading under a slug strategy: the heading itself
/// under `none`, its slug under every other strategy.
pub open spec fn heading_slug(text: Seq<char>, strategy: Seq<char>) -> Seq<char> {
    if strategy == "none"@ {
        text
    } else {
        slug_of(text)
    }
}

/// Turns a heading into its anchor text. The strategy `none` keeps the
/// heading as it is; every other strategy gives its slug.
pub fn slugify_heading(text: &str, strategy: &str) -> (r: String)
    ensures
        r@ == heading_slug(text@, strategy@),
        strategy@ != "none"@ ==> forall|i: int|
            0 <= i < r@.len() ==> is_slug_char(#[trigger] r@[i]),
{
    if str_equal(strategy, "none") {
        text.to_string()
    } else {
        slugify(text)
    }
}

/// A fresh random identifier, 36 characters long.
pub fn generate_id() -> (r: String)
    ensures
        r@.len() == 36,
{
    random_uuid()
}

/// Whether a character may stay in a file name.
pub open spec fn is_filename_char(c: char) -> bool {
    char_is_alphanumeric(c) || c == '.' || c == '-' || c == '_'
}

/// The character that stands for `c` in a sanitized file name.
pub open spec fn sanitized_char(c: char) -> char {
    if is_filename_char(c) {
        c
    } else {
        '_'
    }
}

/// A file name with every character that may not stay replaced by an
/// underscore.
pub open spec fn sanitized(name: Seq<char>) -> Seq<char> {
    Seq::new(name.len(), |i: int| sanitized_char(name[i]))
}

/// Replaces every character of `filename` that is neither alphanumeric nor
/// a dot, a hyphen or an underscore by an underscore.
pub fn sanitize_filename(filename: &str) -> (r: String)
    ensures
        r@ == sanitized(filename@),
{
    let chars = to_chars(filename);
    let mut out: Vec<char> = Vec::new();
    let mut i: usize = 0;
    while i < chars.len()
        invariant
            i <= chars.len(),
            chars@ == filename@,
            out@ == sanitized(filename@).take(i as int),
        decreases chars.len() - i,
    {
        let c = chars[i];
        if is_alphanumeric(c) || c == '.' || c == '-' || c == '_' {
            out.push(c);
        } else {
            out.push('_');
        }
        assert(out@ =~= sanitized(filename@).take(i + 1));
        i += 1;
    }
    assert(sanitized(filename@).take(chars.len() as int) =~= sanitized(filename@));
    string_from_chars(out.as_slice())
}

/// The lowercase extension of a path, if it has one.
pub open spec fn lowered_extension(path: Seq<char>) -> Option<Seq<char>> {
    match path_extension(path) {
        Some(e) => Some(lowercase_of(e)),
        None => None,
    }
}

/// The lowercase extension of a path, if it has one.
pub fn lowercase_extension(path: &str) -> (r: Option<String>)
    ensures
        crate::chars::option_text(r) == lowered_extension(path@),
{
    match extension(path) {
        Some(ext) => Some(to_lowercase(ext.as_str())),
        None => None,
    }
}

/// The lowercase extension of a path. Fails with a generic error exactly
/// when the path has no extension.
pub fn get_file_extension(path: &str) -> (r: Result<String, C2mdError>)
    ensures
        r is Ok == lowered_extension(path@) is Some,
        r is Ok ==> r->Ok_0@ == lowered_extension(path@)->Some_0,
        r is Err ==> reports(r->Err_0, Failure::UndeterminedExtension),
{
    match lowercase_extension(path) {
        Some(ext) => Ok(ext),
        None => Err(C2mdError::Generic("Cannot determine file extension".to_string())),
    }
}

/// Whether a lowercase extension names an image format.
pub open spec fn image_extension(ext: Seq<char>) -> bool {
    ||| ext == "jpg"@
    ||| ext == "jpeg"@
    ||| ext == "png"@
    ||| ext == "gif"@
    ||| ext == "bmp"@
    ||| ext == "tiff"@
    ||| ext == "webp"@
}

/// Whether a lowercase extension names an office format.
pub open spec fn office_extension(ext: Seq<char>) -> bool {
    ||| ext == "doc"@
    ||| ext == "docx"@
    ||| ext == "xls"@
    ||| ext == "xlsx"@
    ||| ext == "ppt"@
    ||| ext == "pptx"@
}

/// Whether a lowercase extension names a plain-text format.
pub open spec fn text_extension(ext: Seq<char>) -> bool {
    ||| ext == "txt"@
    ||| ext == "md"@
    ||| ext == "rst"@
    ||| ext == "asciidoc"@
}

/// Whether a lowercase extension names an image format.
pub fn is_image_extension(ext: &str) -> (b: bool)
    ensures
        b == image_extension(ext@),
{
    let e = to_chars(ext);
    let e = e.as_slice();
    text_is(e, "jpg") || text_is(e, "jpeg") || text_is(e, "png") || text_is(e, "gif") || text_is(
        e,
        "bmp",
    ) || text_is(e, "tiff") || text_is(e, "webp")
}

/// Whether the path names an image, by its extension in any case.
pub fn is_image_file(path: &str) -> (b: bool)
    ensures
        b == match lowered_extension(path@) {
            Some(e) => image_extension(e),
            None => false,
        },
{
    match lowercase_extension(path) {
        Some(ext) => is_image_extension(ext.as_str()),
        None => false,
    }
}

/// Whether the path names an office document, by its extension in any case.
pub fn is_office_file(path: &str) -> (b: bool)
    ensures
        b == match lowered_extension(path@) {
            Some(e) => office_extension(e),
            None => false,
        },
{
    match lowercase_extension(path) {
        Some(ext) => {
            let e = to_chars(ext.as_str());
            let e = e.as_slice();
            text_is(e, "doc") || text_is(e, "docx") || text_is(e, "xls") || text_is(e, "xlsx")
                || text_is(e, "ppt") || text_is(e, "pptx")
        },
        None => false,
    }
}

/// Whether the path names a plain-text file, by its extension in any case.
pub fn is_text_file(path: &str) -> (b: bool)
    ensures
        b == match lowered_extension(path@) {
            Some(e) => text_extension(e),
            None => false,
        },
{
    match lowercase_extension(path) {
        Some(ext) => {
            let e = to_chars(ext.as_str());
            let e = e.as_slice();
            text_is(e, "txt") || text_is(e, "md") || text_is(e, "rst") || text_is(e, "asciidoc")
        },
        None => false,
    }
}

/// The unit a size is shown in: 0 for bytes, then one step for every
/// factor of 1024, up to 4 for terabytes.
pub open spec fn size_unit(bytes: nat) -> nat {
    if bytes < 1024 {
        0
    } else if bytes < 1024 * 1024 {
        1
    } else if bytes < 1024 * 1024 * 1024 {
        2
    } else if bytes < 1024 * 1024 * 1024 * 1024 {
        3
    } else {
        4
    }
}

/// The number of bytes that make one of the given unit.
pub open spec fn unit_bytes(unit: nat) -> nat {
    if unit == 0 {
        1
    } else if unit == 1 {
        1024
    } else if unit == 2 {
        1024 * 1024
    } else if unit == 3 {
        1024 * 1024 * 1024
    } else {
        1024 * 1024 * 1024 * 1024
    }
}

/// The name of a unit.
pub open spec fn unit_name(unit: nat) -> Seq<char> {
    if unit == 0 {
        "B"@
    } else if unit == 1 {
        "KB"@
    } else if unit == 2 {
        "MB"@
    } else if unit == 3 {
        "GB"@
    } else {
        "TB"@
    }
}

/// `bytes` in tenths of the unit of `divisor` bytes, rounded to the nearest
/// tenth, and to the even one where two are equally near.
pub open spec fn rounded_tenths(bytes: nat, divisor: nat) -> nat {
    let scaled = bytes * 10;
    let whole = scaled / divisor;
    let rest = scaled % divisor;
    if 2 * rest > divisor || (2 * rest == divisor && whole % 2 == 1) {
        whole + 1
    } else {
        whole
    }
}

/// How a size is shown: whole bytes below 1024, otherwise one decimal of
/// the largest unit up to terabytes that the size reaches.
pub open spec fn file_size_text(bytes: nat) -> Seq<char> {
    let unit = size_unit(bytes);
    if unit == 0 {
        decimal(bytes) + seq![' '] + unit_name(0)
    } else {
        let tenths = rounded_tenths(bytes, unit_bytes(unit));
        decimal(tenths / 10) + seq!['.', digit_char(tenths % 10)] + seq![' '] + unit_name(unit)
    }
}

/// Shows a size for people: `512 B`, `1.5 KB`, `2.0 MB`.
pub fn format_file_size(bytes: u64) -> (r: String)
    ensures
        r@ == file_size_text(bytes as nat),
{
    let mut out: Vec<char> = Vec::new();
    if bytes < 1024 {
        push_decimal(&mut out, bytes);
        out.push(' ');
        push_str(&mut out, "B");
        assert(out@ =~= decimal(bytes as nat) + seq![' '] + unit_name(0));
        return string_from_chars(out.as_slice());
    }
    let (divisor, name): (u64, &str) = if bytes < 1024 * 1024 {
        (1024, "KB")
    } else if bytes < 1024 * 1024 * 1024 {
        (1024 * 1024, "MB")
    } else if bytes < 1024 * 1024 * 1024 * 1024 {
        (1024 * 1024 * 1024, "GB")
    } else {
        (1024 * 1024 * 1024 * 1024, "TB")
    };
    let ghost unit = size_unit(bytes as nat);
    assert(divisor == unit_bytes(unit) && name@ == unit_name(unit));
    let scaled: u128 = (bytes as u128) * 10;
    let whole: u128 = scaled / (divisor as u128);
    let rest: u128 = scaled % (divisor as u128);
    let tenths: u128 = if 2 * rest > (divisor as u128) || (2 * rest == (divisor as u128) && whole
        % 2 == 1) {
        whole + 1
    } else {
        whole
    };
    assert(tenths == rounded_tenths(bytes as nat, unit_bytes(unit)));
    assert(whole <= scaled);
    let units: u64 = (tenths / 10) as u64;
    let tenth: u8 = (tenths % 10) as u8;
    push_decimal(&mut out, units);
    out.push('.');
    out.push(digit(tenth));
    out.push(' ');
    push_str(&mut out, name);
    assert(out@ =~= decimal((tenths / 10) as nat) + seq!['.', digit_char((tenths % 10) as nat)]
        + seq![' '] + unit_name(unit));
    string_from_chars(out.as_slice())
}

/// Whether `content` starts with the bytes of `mark`.
pub open spec fn has_prefix(content: Seq<u8>, mark: Seq<u8>) -> bool {
    mark.len() <= content.len() && content.subrange(0, mark.len() as int) == mark
}

/// The encoding a byte sequence is taken to be in: by its byte-order mark
/// where it has one, otherwise UTF-8 where the bytes are valid UTF-8, and
/// Latin-1 where they are not.
pub open spec fn encoding_of(content: Seq<u8>) -> Seq<char> {
    if has_prefix(content, seq![0xEFu8, 0xBBu8, 0xBFu8]) {
        "utf-8"@
    } else if has_prefix(content, seq![0xFFu8, 0xFEu8]) {
        "utf-16le"@
    } else if has_prefix(content, seq![0xFEu8, 0xFFu8]) {
        "utf-16be"@
    } else if valid_utf8(content) {
        "utf-8"@
    } else {
        "latin1"@
    }
}

/// Names the encoding of `content`. Never fails.
pub fn detect_encoding(content: &[u8]) -> (r: Result<String, C2mdError>)
    ensures
        r is Ok,
        r->Ok_0@ == encoding_of(content@),
{
    let n = content.len();
    if n >= 3 && content[0] == 0xEF && content[1] == 0xBB && content[2] == 0xBF {
        assert(content@.subrange(0, 3) =~= seq![0xEFu8, 0xBBu8, 0xBFu8]);
        return Ok("utf-8".to_string());
    }
    assert(!has_prefix(content@, seq![0xEFu8, 0xBBu8, 0xBFu8])) by {
        if has_prefix(content@, seq![0xEFu8, 0xBBu8, 0xBFu8]) {
            let head = content@.subrange(0, 3);
            assert(head[0] == 0xEFu8 && head[1] == 0xBBu8 && head[2] == 0xBFu8);
        }
    }
    if n >= 2 && content[0] == 0xFF && content[1] == 0xFE {
        assert(content@.subrange(0, 2) =~= seq![0xFFu8, 0xFEu8]);
        return Ok("utf-16le".to_string());
    }
    assert(!has_prefix(content@, seq![0xFFu8, 0xFEu8])) by {
        if has_prefix(content@, seq![0xFFu8, 0xFEu8]) {
            let head = content@.subrange(0, 2);
            assert(head[0] == 0xFFu8 && head[1] == 0xFEu8);
        }
    }
    if n >= 2 && content[0] == 0xFE && content[1] == 0xFF {
        assert(content@.subrange(0, 2) =~= seq![0xFEu8, 0xFFu8]);
        return Ok("utf-16be".to_string());
    }
    assert(!has_prefix(content@, seq![0xFEu8, 0xFFu8])) by {
        if has_prefix(content@, seq![0xFEu8, 0xFFu8]) {
            let head = content@.subrange(0, 2);
            assert(head[0] == 0xFEu8 && head[1] == 0xFFu8);
        }
    }
    if is_utf8(content) {
        Ok("utf-8".to_string())
    } else {
        Ok("latin1".to_string())
    }
}

/// The path that leads from one place to another. The answer is always
/// the current directory.
pub fn relative_path(from: &str, to: &str) -> (r: Result<String, C2mdError>)
    ensures
        r is Ok,
        r->Ok_0@ == "."@,
{
    Ok(".".to_string())
}

} // verus!
