//! Checks on a file before it is converted: its format, its media type,
//! and whether its content looks like what its format promises.

use vstd::prelude::*;
use vstd::utf8::decode_utf8;
use vstd::utf8::valid_utf8;
use crate::chars::option_text;
use crate::chars::push_str;
use crate::chars::string_from_chars;
use crate::chars::to_chars;
use crate::converter::image::guess_mime;
use crate::converter::image::mime_of_path;
use crate::error::reports;
use crate::error::C2mdError;
use crate::error::Failure;
use crate::pattern::error_text;
use crate::pattern::is_match;
use crate::pattern::regex_compiles;
use crate::pattern::regex_is_match;
use crate::strings::contains_char;
use crate::strings::lines_of;
use crate::strings::split_lines;
use crate::strings::str_equal;
use crate::strings::text_is;
use crate::utils::has_prefix;
use crate::utils::lowercase_extension;
use crate::utils::lowered_extension;

verus! {

/// What the checks found of a file.
#[derive(Debug, Clone)]
pub struct FileInfo {
    pub path: String,
    pub size: u64,
    pub format: String,
    pub mime_type: Option<String>,
    pub is_valid: bool,
    pub error: Option<String>,
}

/// The message of a read that ran out of bytes.
pub const SHORT_READ: &'static str = "failed to fill whole buffer";

/// The message of a read that met bytes which are not UTF-8.
pub const NOT_UTF8: &'static str = "stream did not contain valid UTF-8";

/// The pattern of a tag with something between its brackets.
pub const TAG_PATTERN: &'static str = "<[^>]+>";

/// Calls `String::from_utf8` on a copy of the bytes. The result is the
/// text the bytes encode, and `None` where they are not valid UTF-8.
#[verifier::external_body]
pub(crate) fn decode(content: &[u8]) -> (r: Option<String>)
    ensures
        r is Some == valid_utf8(content@),
        r is Some ==> r->Some_0@ == decode_utf8(content@),
{
    String::from_utf8(content.to_vec()).ok()
}

/// The text of a file, as reading it to a string gives it. Fails with an
/// I/O error exactly when the bytes are not valid UTF-8.
pub fn read_text(content: &[u8]) -> (r: Result<String, C2mdError>)
    ensures
        r is Ok == valid_utf8(content@),
        r is Ok ==> r->Ok_0@ == decode_utf8(content@),
        r is Err ==> r->Err_0 is Io && r->Err_0->Io_0@ == NOT_UTF8@,
{
    match decode(content) {
        Some(text) => Ok(text),
        None => Err(C2mdError::Io(NOT_UTF8.to_string())),
    }
}

/// The format that a lowercase extension stands for, if it is a known one.
pub open spec fn format_of_extension(ext: Seq<char>) -> Option<Seq<char>> {
    if ext == "pdf"@ {
        Some("pdf"@)
    } else if ext == "doc"@ || ext == "docx"@ {
        Some("office"@)
    } else if ext == "xls"@ || ext == "xlsx"@ {
        Some("excel"@)
    } else if ext == "ppt"@ || ext == "pptx"@ {
        Some("powerpoint"@)
    } else if ext == "rtf"@ {
        Some("rtf"@)
    } else if ext == "txt"@ {
        Some("text"@)
    } else if ext == "html"@ || ext == "htm"@ {
        Some("html"@)
    } else if ext == "epub"@ {
        Some("epub"@)
    } else if ext == "csv"@ {
        Some("csv"@)
    } else if crate::utils::image_extension(ext) {
        Some("image"@)
    } else {
        None
    }
}

/// The format that the first bytes of a file give away; plain text where
/// they give nothing away.
pub open spec fn format_of_magic(head: Seq<u8>) -> Seq<char> {
    if has_prefix(head, seq![0x25u8, 0x50u8, 0x44u8, 0x46u8]) {
        "pdf"@
    } else if has_prefix(head, seq![0x89u8, 0x50u8, 0x4Eu8, 0x47u8]) {
        "image"@
    } else if has_prefix(head, seq![0xFFu8, 0xD8u8, 0xFFu8]) {
        "image"@
    } else if has_prefix(head, seq![0x47u8, 0x49u8, 0x46u8, 0x38u8, 0x37u8, 0x61u8]) || has_prefix(
        head,
        seq![0x47u8, 0x49u8, 0x46u8, 0x38u8, 0x39u8, 0x61u8],
    ) {
        "image"@
    } else if has_prefix(head, seq![0x42u8, 0x4Du8]) {
        "image"@
    } else if has_prefix(head, seq![0x7Bu8, 0x5Cu8, 0x72u8, 0x74u8, 0x66u8]) {
        "rtf"@
    } else {
        "text"@
    }
}

/// The format of a file: the one its extension stands for, or else the
/// one its first sixteen bytes give away; `None` where the extension is
/// unknown and the file is shorter than that.
pub open spec fn detected_format(path: Seq<char>, content: Seq<u8>) -> Option<Seq<char>> {
    let by_extension = match lowered_extension(path) {
        Some(ext) => format_of_extension(ext),
        None => None,
    };
    if by_extension is Some {
        by_extension
    } else if content.len() >= 16 {
        Some(format_of_magic(content.subrange(0, 16)))
    } else {
        None
    }
}

/// Whether `content` starts with the bytes of `mark`.
pub fn starts_with_bytes(content: &[u8], mark: &[u8]) -> (b: bool)
    ensures
        b == has_prefix(content@, mark@),
{
    if mark.len() > content.len() {
        return false;
    }
    let mut i: usize = 0;
    while i < mark.len()
        invariant
            i <= mark.len() <= content.len(),
            forall|j: int| 0 <= j < i ==> content@[j] == mark@[j],
        decreases mark.len() - i,
    {
        if content[i] != mark[i] {
            assert(content@.subrange(0, mark@.len() as int)[i as int] != mark@[i as int]);
            return false;
        }
        i += 1;
    }
    assert(content@.subrange(0, mark@.len() as int) =~= mark@);
    true
}

/// The format that a lowercase extension stands for, if it is a known one.
pub fn extension_format(ext: &str) -> (r: Option<String>)
    ensures
        option_text(r) == format_of_extension(ext@),
{
    let e = to_chars(ext);
    let e = e.as_slice();
    if text_is(e, "pdf") {
        Some("pdf".to_string())
    } else if text_is(e, "doc") || text_is(e, "docx") {
        Some("office".to_string())
    } else if text_is(e, "xls") || text_is(e, "xlsx") {
        Some("excel".to_string())
    } else if text_is(e, "ppt") || text_is(e, "pptx") {
        Some("powerpoint".to_string())
    } else if text_is(e, "rtf") {
        Some("rtf".to_string())
    } else if text_is(e, "txt") {
        Some("text".to_string())
    } else if text_is(e, "html") || text_is(e, "htm") {
        Some("html".to_string())
    } else if text_is(e, "epub") {
        Some("epub".to_string())
    } else if text_is(e, "csv") {
        Some("csv".to_string())
    } else if crate::utils::is_image_extension(ext) {
        Some("image".to_string())
    } else {
        None
    }
}

/// The format that the first bytes of a file give away.
pub fn detect_by_magic_number(head: &[u8]) -> (r: String)
    ensures
        r@ == format_of_magic(head@),
{
    let pdf: [u8; 4] = [0x25, 0x50, 0x44, 0x46];
    let png: [u8; 4] = [0x89, 0x50, 0x4E, 0x47];
    let jpeg: [u8; 3] = [0xFF, 0xD8, 0xFF];
    let gif87: [u8; 6] = [0x47, 0x49, 0x46, 0x38, 0x37, 0x61];
    let gif89: [u8; 6] = [0x47, 0x49, 0x46, 0x38, 0x39, 0x61];
    let bmp: [u8; 2] = [0x42, 0x4D];
    let rtf: [u8; 5] = [0x7B, 0x5C, 0x72, 0x74, 0x66];
    assert(pdf@ =~= seq![0x25u8, 0x50u8, 0x44u8, 0x46u8]);
    assert(png@ =~= seq![0x89u8, 0x50u8, 0x4Eu8, 0x47u8]);
    assert(jpeg@ =~= seq![0xFFu8, 0xD8u8, 0xFFu8]);
    assert(gif87@ =~= seq![0x47u8, 0x49u8, 0x46u8, 0x38u8, 0x37u8, 0x61u8]);
    assert(gif89@ =~= seq![0x47u8, 0x49u8, 0x46u8, 0x38u8, 0x39u8, 0x61u8]);
    assert(bmp@ =~= seq![0x42u8, 0x4Du8]);
    assert(rtf@ =~= seq![0x7Bu8, 0x5Cu8, 0x72u8, 0x74u8, 0x66u8]);
    if starts_with_bytes(head, pdf.as_slice()) {
        "pdf".to_string()
    } else if starts_with_bytes(head, png.as_slice()) {
        "image".to_string()
    } else if starts_with_bytes(head, jpeg.as_slice()) {
        "image".to_string()
    } else if starts_with_bytes(head, gif87.as_slice()) || starts_with_bytes(
        head,
        gif89.as_slice(),
    ) {
        "image".to_string()
    } else if starts_with_bytes(head, bmp.as_slice()) {
        "image".to_string()
    } else if starts_with_bytes(head, rtf.as_slice()) {
        "rtf".to_string()
    } else {
        "text".to_string()
    }
}

/// Names the format of the file at `path` with the given content: by its
/// extension where that is a known one, in any case, and else by the first
/// sixteen bytes. Fails with an I/O error exactly when the extension is
/// unknown and the file is shorter than sixteen bytes.
pub fn detect_format(path: &str, content: &[u8]) -> (r: Result<String, C2mdError>)
    ensures
        r is Ok == detected_format(path@, content@) is Some,
        r is Ok ==> Some(r->Ok_0@) == detected_format(path@, content@),
        r is Err ==> r->Err_0 is Io && r->Err_0->Io_0@ == SHORT_READ@,
{
    match lowercase_extension(path) {
        Some(ext) => {
            match extension_format(ext.as_str()) {
                Some(format) => {
                    return Ok(format);
                },
                None => {},
            }
        },
        None => {},
    }
    if content.len() >= 16 {
        Ok(detect_by_magic_number(vstd::slice::slice_subrange(content, 0, 16)))
    } else {
        Err(C2mdError::Io(SHORT_READ.to_string()))
    }
}

/// The media type of a path, unless it is the catch-all type.
pub open spec fn mime_type_of(path: Seq<char>) -> Option<Seq<char>> {
    if mime_of_path(path) == "application/octet-stream"@ {
        None
    } else {
        Some(mime_of_path(path))
    }
}

/// The media type guessed for a path by its extension; `None` where the
/// guess is the catch-all type. Never fails.
pub fn detect_mime_type(path: &str) -> (r: Result<Option<String>, C2mdError>)
    ensures
        r is Ok,
        option_text(r->Ok_0) == mime_type_of(path@),
{
    let mime = guess_mime(path);
    if str_equal(mime.as_str(), "application/octet-stream") {
        Ok(None)
    } else {
        Ok(Some(mime))
    }
}

/// The verdict of a check: nothing where the file is sound, the complaint
/// where it is not.
pub enum Verdict {
    /// The content is what the format promises.
    Sound,
    /// The content is not what the format promises, for the given reason.
    Unsound(Seq<char>),
    /// The content could not be read, for the given reason.
    Unreadable(Seq<char>),
    /// The check itself could not be made: a pattern did not compile.
    Unchecked,
}

/// The verdict on content that has to start with `mark`.
pub open spec fn marked(content: Seq<u8>, mark: Seq<u8>, complaint: Seq<char>) -> Verdict {
    if content.len() < mark.len() {
        Verdict::Unreadable(SHORT_READ@)
    } else if has_prefix(content, mark) {
        Verdict::Sound
    } else {
        Verdict::Unsound(complaint)
    }
}

/// The verdict on HTML: sound where a tag occurs in it.
pub open spec fn html_verdict(content: Seq<u8>) -> Verdict {
    if !valid_utf8(content) {
        Verdict::Unreadable(NOT_UTF8@)
    } else if !regex_compiles(TAG_PATTERN@) {
        Verdict::Unchecked
    } else if regex_is_match(TAG_PATTERN@, decode_utf8(content)) {
        Verdict::Sound
    } else {
        Verdict::Unsound("No HTML tags found"@)
    }
}

/// The verdict on CSV: sound where its first line holds a comma.
pub open spec fn csv_verdict(content: Seq<u8>) -> Verdict {
    if !valid_utf8(content) {
        Verdict::Unreadable(NOT_UTF8@)
    } else if lines_of(decode_utf8(content)).len() == 0 {
        Verdict::Unsound("Empty CSV file"@)
    } else if lines_of(decode_utf8(content))[0].contains(',') {
        Verdict::Sound
    } else {
        Verdict::Unsound("No comma separators found"@)
    }
}

/// The verdict on an image, given the complaint of the decoder, if any.
pub open spec fn image_verdict(decode_error: Option<Seq<char>>) -> Verdict {
    match decode_error {
        Some(e) => Verdict::Unsound("Invalid image: "@ + e),
        None => Verdict::Sound,
    }
}

/// The verdict on a file of the given format. Text and unknown formats
/// are always sound.
pub open spec fn verdict(
    format: Seq<char>,
    content: Seq<u8>,
    decode_error: Option<Seq<char>>,
) -> Verdict {
    if format == "pdf"@ {
        marked(content, seq![0x25u8, 0x50u8, 0x44u8, 0x46u8], "Invalid PDF file"@)
    } else if format == "office"@ || format == "excel"@ || format == "powerpoint"@ {
        marked(content, seq![0x50u8, 0x4Bu8, 0x03u8, 0x04u8], "Invalid Office document"@)
    } else if format == "rtf"@ {
        marked(content, seq![0x7Bu8, 0x5Cu8, 0x72u8, 0x74u8, 0x66u8], "Invalid RTF file"@)
    } else if format == "html"@ {
        html_verdict(content)
    } else if format == "epub"@ {
        marked(content, seq![0x50u8, 0x4Bu8, 0x03u8, 0x04u8], "Invalid EPUB file"@)
    } else if format == "csv"@ {
        csv_verdict(content)
    } else if format == "image"@ {
        image_verdict(decode_error)
    } else {
        Verdict::Sound
    }
}

/// Whether a check's outcome says what the verdict says.
pub open spec fn agrees(r: Result<(bool, Option<String>), C2mdError>, v: Verdict) -> bool {
    match v {
        Verdict::Sound => r is Ok && r->Ok_0.0 && r->Ok_0.1 is None,
        Verdict::Unsound(complaint) => r is Ok && !r->Ok_0.0 && option_text(r->Ok_0.1) == Some(
            complaint,
        ),
        Verdict::Unreadable(reason) => r is Err && r->Err_0 is Io && r->Err_0->Io_0@ == reason,
        Verdict::Unchecked => r is Err && r->Err_0 is Regex,
    }
}

/// Checks that `content` starts with `mark`.
fn validate_mark(content: &[u8], mark: &[u8], complaint: &str) -> (r: Result<
    (bool, Option<String>),
    C2mdError,
>)
    ensures
        agrees(r, marked(content@, mark@, complaint@)),
{
    if content.len() < mark.len() {
        Err(C2mdError::Io(SHORT_READ.to_string()))
    } else if starts_with_bytes(content, mark) {
        Ok((true, None))
    } else {
        Ok((false, Some(complaint.to_string())))
    }
}

/// Checks that a PDF starts with its signature.
pub fn validate_pdf(content: &[u8]) -> (r: Result<(bool, Option<String>), C2mdError>)
    ensures
        agrees(r, marked(content@, seq![0x25u8, 0x50u8, 0x44u8, 0x46u8], "Invalid PDF file"@)),
{
    let mark: [u8; 4] = [0x25, 0x50, 0x44, 0x46];
    assert(mark@ =~= seq![0x25u8, 0x50u8, 0x44u8, 0x46u8]);
    validate_mark(content, mark.as_slice(), "Invalid PDF file")
}

/// Checks that an office document starts with the signature of a ZIP file.
pub fn validate_office(content: &[u8]) -> (r: Result<(bool, Option<String>), C2mdError>)
    ensures
        agrees(
            r,
            marked(content@, seq![0x50u8, 0x4Bu8, 0x03u8, 0x04u8], "Invalid Office document"@),
        ),
{
    let mark: [u8; 4] = [0x50, 0x4B, 0x03, 0x04];
    assert(mark@ =~= seq![0x50u8, 0x4Bu8, 0x03u8, 0x04u8]);
    validate_mark(content, mark.as_slice(), "Invalid Office document")
}

/// Checks that an RTF document starts with its signature.
pub fn validate_rtf(content: &[u8]) -> (r: Result<(bool, Option<String>), C2mdError>)
    ensures
        agrees(
            r,
            marked(content@, seq![0x7Bu8, 0x5Cu8, 0x72u8, 0x74u8, 0x66u8], "Invalid RTF file"@),
        ),
{
    let mark: [u8; 5] = [0x7B, 0x5C, 0x72, 0x74, 0x66];
    assert(mark@ =~= seq![0x7Bu8, 0x5Cu8, 0x72u8, 0x74u8, 0x66u8]);
    validate_mark(content, mark.as_slice(), "Invalid RTF file")
}

/// Checks that an EPUB book starts with the signature of a ZIP file.
pub fn validate_epub(content: &[u8]) -> (r: Result<(bool, Option<String>), C2mdError>)
    ensures
        agrees(r, marked(content@, seq![0x50u8, 0x4Bu8, 0x03u8, 0x04u8], "Invalid EPUB file"@)),
{
    let mark: [u8; 4] = [0x50, 0x4B, 0x03, 0x04];
    assert(mark@ =~= seq![0x50u8, 0x4Bu8, 0x03u8, 0x04u8]);
    validate_mark(content, mark.as_slice(), "Invalid EPUB file")
}

/// Checks that HTML holds a tag.
pub fn validate_html(content: &[u8]) -> (r: Result<(bool, Option<String>), C2mdError>)
    ensures
        agrees(r, html_verdict(content@)),
{
    let text = match read_text(content) {
        Ok(text) => text,
        Err(e) => {
            return Err(e);
        },
    };
    match is_match(TAG_PATTERN, text.as_str()) {
        Ok(true) => Ok((true, None)),
        Ok(false) => Ok((false, Some("No HTML tags found".to_string()))),
        Err(e) => Err(C2mdError::Regex(error_text(&e))),
    }
}

/// Checks that the first line of CSV holds a comma.
pub fn validate_csv(content: &[u8]) -> (r: Result<(bool, Option<String>), C2mdError>)
    ensures
        agrees(r, csv_verdict(content@)),
{
    let text = match read_text(content) {
        Ok(text) => text,
        Err(e) => {
            return Err(e);
        },
    };
    let chars = to_chars(text.as_str());
    let lines = split_lines(chars.as_slice());
    if lines.len() == 0 {
        return Ok((false, Some("Empty CSV file".to_string())));
    }
    assert(lines_of(decode_utf8(content@))[0] == lines[0]@);
    if contains_char(lines[0].as_slice(), ',') {
        Ok((true, None))
    } else {
        Ok((false, Some("No comma separators found".to_string())))
    }
}

/// Reports on an image what its decoder found.
pub fn validate_image(decode_error: &Option<String>) -> (r: Result<
    (bool, Option<String>),
    C2mdError,
>)
    ensures
        agrees(r, image_verdict(option_text(*decode_error))),
{
    match decode_error {
        Some(e) => {
            let mut out: Vec<char> = Vec::new();
            push_str(&mut out, "Invalid image: ");
            push_str(&mut out, e.as_str());
            Ok((false, Some(string_from_chars(out.as_slice()))))
        },
        None => Ok((true, None)),
    }
}

/// Text is always sound.
pub fn validate_text() -> (r: Result<(bool, Option<String>), C2mdError>)
    ensures
        agrees(r, Verdict::Sound),
{
    Ok((true, None))
}

/// Checks the content of a file against its format. `decode_error` is the
/// complaint of the image decoder, where the file was opened as an image
/// and could not be decoded. The outcome tells whether the content is
/// sound, and why not where it is not; it is an I/O error where the content
/// is too short or not text, and a regex error where a pattern fails.
pub fn validate_format(format: &str, content: &[u8], decode_error: &Option<String>) -> (r: Result<
    (bool, Option<String>),
    C2mdError,
>)
    ensures
        agrees(r, verdict(format@, content@, option_text(*decode_error))),
{
    if str_equal(format, "pdf") {
        validate_pdf(content)
    } else if str_equal(format, "office") || str_equal(format, "excel") || str_equal(
        format,
        "powerpoint",
    ) {
        validate_office(content)
    } else if str_equal(format, "rtf") {
        validate_rtf(content)
    } else if str_equal(format, "html") {
        validate_html(content)
    } else if str_equal(format, "epub") {
        validate_epub(content)
    } else if str_equal(format, "csv") {
        validate_csv(content)
    } else if str_equal(format, "image") {
        validate_image(decode_error)
    } else {
        validate_text()
    }
}

/// Why the checks on a file cannot be made, where they cannot.
pub open spec fn check_failure(
    path: Seq<char>,
    content: Seq<u8>,
    decode_error: Option<Seq<char>>,
) -> Option<Failure> {
    match detected_format(path, content) {
        None => Some(Failure::Io(SHORT_READ@)),
        Some(format) => match verdict(format, content, decode_error) {
            Verdict::Unreadable(reason) => Some(Failure::Io(reason)),
            Verdict::Unchecked => Some(Failure::Pattern),
            _ => None,
        },
    }
}

/// Checks a file before it is converted: its size, format and media type,
/// and the verdict on its content. `decode_error` is the complaint of the
/// image decoder, where the file was opened as an image and could not be
/// decoded. Fails exactly when the format cannot be told, the content
/// cannot be read, or a pattern fails.
pub fn validate_file(path: &str, content: &[u8], decode_error: &Option<String>) -> (r: Result<
    FileInfo,
    C2mdError,
>)
    ensures
        r is Ok == check_failure(path@, content@, option_text(*decode_error)) is None,
        r is Err ==> reports(
            r->Err_0,
            check_failure(path@, content@, option_text(*decode_error))->Some_0,
        ),
        r is Ok ==> {
            &&& r->Ok_0.path@ == path@
            &&& r->Ok_0.size == content@.len()
            &&& Some(r->Ok_0.format@) == detected_format(path@, content@)
            &&& option_text(r->Ok_0.mime_type) == mime_type_of(path@)
            &&& agrees(
                Ok((r->Ok_0.is_valid, r->Ok_0.error)),
                verdict(r->Ok_0.format@, content@, option_text(*decode_error)),
            )
        },
{
    let format = match detect_format(path, content) {
        Ok(format) => format,
        Err(e) => {
            return Err(e);
        },
    };
    let mime_type = match detect_mime_type(path) {
        Ok(mime) => mime,
        Err(e) => {
            return Err(e);
        },
    };
    let (is_valid, error) = match validate_format(format.as_str(), content, decode_error) {
        Ok(outcome) => outcome,
        Err(e) => {
            return Err(e);
        },
    };
    Ok(
        FileInfo {
            path: path.to_string(),
            size: content.len() as u64,
            format,
            mime_type,
            is_valid,
            error,
        },
    )
}

} // verus!
