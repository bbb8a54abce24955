//! What is known of a document besides its text: title, author, counts,
//! size and format.

use vstd::prelude::*;
use vstd::utf8::decode_utf8;
use vstd::utf8::valid_utf8;
use crate::chars::option_text;
use crate::chars::push_str;
use crate::chars::string_from_chars;
use crate::chars::to_chars;
use crate::clock::format_timestamp;
use crate::clock::utc_time_text;
use crate::clock::TIMESTAMP_FORMAT;
use crate::converter::frontmatter::meta_line;
use crate::converter::frontmatter::push_meta_line;
use crate::error::C2mdError;
use crate::pattern::first_group;
use crate::pattern::regex_compiles;
use crate::pattern::regex_first_group;
use crate::pattern::regex_replaced;
use crate::pattern::replace_all;
use crate::strings::decimal;
use crate::strings::lines_of;
use crate::strings::push_decimal;
use crate::strings::split_lines;
use crate::strings::split_whitespace;
use crate::strings::str_equal;
use crate::strings::text_is;
use crate::strings::trim;
use crate::strings::trimmed;
use crate::strings::views;
use crate::strings::words_of;
use crate::utils::file_size_text;
use crate::utils::format_file_size;
use crate::utils::lowercase_extension;
use crate::utils::lowered_extension;
use crate::validator::read_text;
use crate::validator::NOT_UTF8;

verus! {

/// What is known of a document. Points in time are held in seconds after
/// the Unix epoch.
#[derive(Debug, Clone)]
pub struct DocumentMetadata {
    pub title: Option<String>,
    pub author: Option<String>,
    pub subject: Option<String>,
    pub keywords: Option<String>,
    pub creator: Option<String>,
    pub producer: Option<String>,
    pub creation_date: Option<i64>,
    pub modification_date: Option<i64>,
    pub language: Option<String>,
    pub page_count: Option<u32>,
    pub word_count: Option<u32>,
    pub character_count: Option<u32>,
    pub file_size: u64,
    pub format: String,
}

/// The mathematical value of a document's metadata.
pub struct MetadataView {
    pub title: Option<Seq<char>>,
    pub author: Option<Seq<char>>,
    pub subject: Option<Seq<char>>,
    pub keywords: Option<Seq<char>>,
    pub creator: Option<Seq<char>>,
    pub producer: Option<Seq<char>>,
    pub creation_date: Option<i64>,
    pub modification_date: Option<i64>,
    pub language: Option<Seq<char>>,
    pub page_count: Option<u32>,
    pub word_count: Option<u32>,
    pub character_count: Option<u32>,
    pub file_size: u64,
    pub format: Seq<char>,
}

impl View for DocumentMetadata {
    type V = MetadataView;

    open spec fn view(&self) -> MetadataView {
        MetadataView {
            title: option_text(self.title),
            author: option_text(self.author),
            subject: option_text(self.subject),
            keywords: option_text(self.keywords),
            creator: option_text(self.creator),
            producer: option_text(self.producer),
            creation_date: self.creation_date,
            modification_date: self.modification_date,
            language: option_text(self.language),
            page_count: self.page_count,
            word_count: self.word_count,
            character_count: self.character_count,
            file_size: self.file_size,
            format: self.format@,
        }
    }
}

/// The pattern that strips tags.
pub const STRIP_PATTERN: &'static str = "<[^>]*>";

/// The format by which metadata is gathered, for a lowercase extension.
pub open spec fn metadata_format_of(ext: Option<Seq<char>>) -> Seq<char> {
    match ext {
        Some(e) => if e == "pdf"@ {
            "pdf"@
        } else if e == "doc"@ || e == "docx"@ {
            "office"@
        } else if e == "xls"@ || e == "xlsx"@ {
            "excel"@
        } else if e == "ppt"@ || e == "pptx"@ {
            "powerpoint"@
        } else if e == "epub"@ {
            "epub"@
        } else if e == "html"@ || e == "htm"@ {
            "html"@
        } else if e == "txt"@ {
            "text"@
        } else {
            "unknown"@
        },
        None => "unknown"@,
    }
}

/// What is known before the content is looked at.
pub open spec fn blank_metadata(file_size: u64, modified: i64, format: Seq<char>) -> MetadataView {
    MetadataView {
        title: None,
        author: None,
        subject: None,
        keywords: None,
        creator: None,
        producer: None,
        creation_date: None,
        modification_date: Some(modified),
        language: None,
        page_count: None,
        word_count: None,
        character_count: None,
        file_size,
        format,
    }
}

/// The pattern of an element with the given tag and some text in it.
pub open spec fn element_pattern(tag: Seq<char>) -> Seq<char> {
    "<"@ + tag + "[^>]*>([^<]+)</"@ + tag + ">"@
}

/// The pattern of a `meta` element with the given name and some content.
pub open spec fn meta_pattern(name: Seq<char>) -> Seq<char> {
    "<meta[^>]*name=[\"']"@ + name + "[\"'][^>]*content=[\"']([^\"']+)[\"'][^>]*>"@
}

/// The first group of the leftmost match, where the pattern compiles and
/// matches.
pub open spec fn captured(pattern: Seq<char>, text: Seq<char>) -> Option<Seq<char>> {
    if regex_compiles(pattern) {
        regex_first_group(pattern, text)
    } else {
        None
    }
}

/// The trimmed text of the first element with the given tag.
pub open spec fn html_tag_text(html: Seq<char>, tag: Seq<char>) -> Option<Seq<char>> {
    match captured(element_pattern(tag), html) {
        Some(text) => Some(trimmed(text)),
        None => None,
    }
}

/// The content of the first `meta` element with the given name.
pub open spec fn html_meta_text(html: Seq<char>, name: Seq<char>) -> Option<Seq<char>> {
    captured(meta_pattern(name), html)
}

/// `html` without its tags; `html` itself where the pattern fails.
pub open spec fn without_tags(html: Seq<char>) -> Seq<char> {
    if regex_compiles(STRIP_PATTERN@) {
        regex_replaced(STRIP_PATTERN@, html, ""@)
    } else {
        html
    }
}

/// The number of whitespace-separated words of a text, cut to 32 bits.
pub open spec fn word_count_of(text: Seq<char>) -> u32 {
    words_of(text).len() as u32
}

/// The title that a text's first line gives: the line trimmed, where that
/// is not empty and shorter than 100 characters.
pub open spec fn first_line_title(text: Seq<char>) -> Option<Seq<char>> {
    if lines_of(text).len() == 0 {
        None
    } else {
        let line = trimmed(lines_of(text)[0]);
        if 0 < line.len() < 100 {
            Some(line)
        } else {
            None
        }
    }
}

/// `base` with a title and, where given, an author.
pub open spec fn entitled(
    base: MetadataView,
    title: Seq<char>,
    author: Option<Seq<char>>,
) -> MetadataView {
    MetadataView { title: Some(title), author, ..base }
}

/// `b` where it is given, `a` otherwise.
pub open spec fn or_else(a: Option<Seq<char>>, b: Option<Seq<char>>) -> Option<Seq<char>> {
    if b is Some {
        b
    } else {
        a
    }
}

/// The metadata of an HTML text.
pub open spec fn html_metadata(base: MetadataView, html: Seq<char>) -> MetadataView {
    MetadataView {
        title: or_else(base.title, html_tag_text(html, "title"@)),
        author: or_else(base.author, html_meta_text(html, "author"@)),
        subject: or_else(base.subject, html_meta_text(html, "description"@)),
        keywords: or_else(base.keywords, html_meta_text(html, "keywords"@)),
        word_count: Some(word_count_of(without_tags(html))),
        character_count: Some(without_tags(html).len() as u32),
        ..base
    }
}

/// The metadata of a plain text.
pub open spec fn text_metadata(base: MetadataView, text: Seq<char>) -> MetadataView {
    MetadataView {
        title: or_else(base.title, first_line_title(text)),
        word_count: Some(word_count_of(text)),
        character_count: Some(text.len() as u32),
        ..base
    }
}

/// The metadata of a file; `None` where the format calls for the text of
/// the file and its bytes are not valid UTF-8.
pub open spec fn described(path: Seq<char>, content: Seq<u8>, modified: i64) -> Option<
    MetadataView,
> {
    let format = metadata_format_of(lowered_extension(path));
    let base = blank_metadata(content.len() as u64, modified, format);
    if format == "pdf"@ {
        Some(entitled(base, "PDF Document"@, Some("Unknown"@)))
    } else if format == "office"@ {
        Some(entitled(base, "Office Document"@, Some("Unknown"@)))
    } else if format == "excel"@ {
        Some(entitled(base, "Excel Spreadsheet"@, None))
    } else if format == "powerpoint"@ {
        Some(entitled(base, "PowerPoint Presentation"@, Some("Unknown"@)))
    } else if format == "epub"@ {
        Some(entitled(base, "EPUB Book"@, Some("Unknown"@)))
    } else if format == "html"@ {
        if valid_utf8(content) {
            Some(html_metadata(base, decode_utf8(content)))
        } else {
            None
        }
    } else if format == "text"@ {
        if valid_utf8(content) {
            Some(text_metadata(base, decode_utf8(content)))
        } else {
            None
        }
    } else {
        Some(base)
    }
}

/// The format by which metadata is gathered for the file at `path`.
pub fn metadata_format(path: &str) -> (r: String)
    ensures
        r@ == metadata_format_of(lowered_extension(path@)),
{
    match lowercase_extension(path) {
        Some(ext) => {
            let e = to_chars(ext.as_str());
            let e = e.as_slice();
            if text_is(e, "pdf") {
                "pdf".to_string()
            } else if text_is(e, "doc") || text_is(e, "docx") {
                "office".to_string()
            } else if text_is(e, "xls") || text_is(e, "xlsx") {
                "excel".to_string()
            } else if text_is(e, "ppt") || text_is(e, "pptx") {
                "powerpoint".to_string()
            } else if text_is(e, "epub") {
                "epub".to_string()
            } else if text_is(e, "html") || text_is(e, "htm") {
                "html".to_string()
            } else if text_is(e, "txt") {
                "text".to_string()
            } else {
                "unknown".to_string()
            }
        },
        None => "unknown".to_string(),
    }
}

/// Searches `text` for `pattern` and returns the first group of the
/// leftmost match. A pattern that does not compile counts as no match.
fn capture(pattern: &str, text: &str) -> (r: Option<String>)
    ensures
        option_text(r) == captured(pattern@, text@),
{
    match first_group(pattern, text) {
        Ok(found) => found,
        Err(_) => None,
    }
}

/// The trimmed text of the first element of `html` with the given tag.
pub fn extract_html_tag(html: &str, tag: &str) -> (r: Option<String>)
    ensures
        option_text(r) == html_tag_text(html@, tag@),
{
    let mut pattern: Vec<char> = Vec::new();
    push_str(&mut pattern, "<");
    push_str(&mut pattern, tag);
    push_str(&mut pattern, "[^>]*>([^<]+)</");
    push_str(&mut pattern, tag);
    push_str(&mut pattern, ">");
    assert(pattern@ =~= element_pattern(tag@));
    let pattern = string_from_chars(pattern.as_slice());
    match capture(pattern.as_str(), html) {
        Some(text) => {
            let chars = to_chars(text.as_str());
            Some(string_from_chars(trim(chars.as_slice())))
        },
        None => None,
    }
}

/// The content of the first `meta` element of `html` with the given name.
pub fn extract_html_meta(html: &str, name: &str) -> (r: Option<String>)
    ensures
        option_text(r) == html_meta_text(html@, name@),
{
    let mut pattern: Vec<char> = Vec::new();
    push_str(&mut pattern, "<meta[^>]*name=[\"']");
    push_str(&mut pattern, name);
    push_str(&mut pattern, "[\"'][^>]*content=[\"']([^\"']+)[\"'][^>]*>");
    assert(pattern@ =~= meta_pattern(name@));
    let pattern = string_from_chars(pattern.as_slice());
    capture(pattern.as_str(), html)
}

/// `html` without its tags.
pub fn strip_html_tags(html: &str) -> (r: String)
    ensures
        r@ == without_tags(html@),
{
    match replace_all(STRIP_PATTERN, html, "") {
        Ok(text) => text,
        Err(_) => html.to_string(),
    }
}

/// The number of whitespace-separated words of `text`, cut to 32 bits.
pub fn count_words(text: &str) -> (r: u32)
    ensures
        r == word_count_of(text@),
{
    let chars = to_chars(text);
    let words = split_whitespace(chars.as_slice());
    assert(views(words@).len() == words@.len());
    words.len() as u32
}

/// The number of characters of `text`, cut to 32 bits.
pub fn count_characters(text: &str) -> (r: u32)
    ensures
        r == text@.len() as u32,
{
    let chars = to_chars(text);
    chars.len() as u32
}

/// Fills in what an HTML text tells of itself.
pub fn extract_html_metadata(html: &str, metadata: &mut DocumentMetadata)
    ensures
        final(metadata)@ == html_metadata(old(metadata)@, html@),
{
    match extract_html_tag(html, "title") {
        Some(title) => {
            metadata.title = Some(title);
        },
        None => {},
    }
    match extract_html_meta(html, "author") {
        Some(author) => {
            metadata.author = Some(author);
        },
        None => {},
    }
    match extract_html_meta(html, "description") {
        Some(description) => {
            metadata.subject = Some(description);
        },
        None => {},
    }
    match extract_html_meta(html, "keywords") {
        Some(keywords) => {
            metadata.keywords = Some(keywords);
        },
        None => {},
    }
    let text = strip_html_tags(html);
    metadata.word_count = Some(count_words(text.as_str()));
    metadata.character_count = Some(count_characters(text.as_str()));
}

/// The title that the first line of `text` gives, if any.
pub fn title_from_first_line(text: &str) -> (r: Option<String>)
    ensures
        option_text(r) == first_line_title(text@),
{
    let chars = to_chars(text);
    let lines = split_lines(chars.as_slice());
    if lines.len() == 0 {
        return None;
    }
    assert(lines_of(text@)[0] == lines[0]@);
    let line = trim(lines[0].as_slice());
    if line.len() > 0 && line.len() < 100 {
        Some(string_from_chars(line))
    } else {
        None
    }
}

/// Fills in what a plain text tells of itself.
pub fn extract_text_metadata(text: &str, metadata: &mut DocumentMetadata)
    ensures
        final(metadata)@ == text_metadata(old(metadata)@, text@),
{
    match title_from_first_line(text) {
        Some(title) => {
            metadata.title = Some(title);
        },
        None => {},
    }
    metadata.word_count = Some(count_words(text));
    metadata.character_count = Some(count_characters(text));
}

/// Gathers the metadata of the file at `path` with the given content,
/// last modified at `modified` seconds after the Unix epoch. The format is
/// told by the extension; HTML and plain text are searched for a title and
/// counted, the other formats get a fixed title. Fails with an I/O error
/// exactly when the file is HTML or plain text and its bytes are not valid
/// UTF-8.
pub fn extract_metadata(path: &str, content: &[u8], modified: i64) -> (r: Result<
    DocumentMetadata,
    C2mdError,
>)
    ensures
        r is Ok == described(path@, content@, modified) is Some,
        r is Ok ==> Some(r->Ok_0@) == described(path@, content@, modified),
        r is Err ==> r->Err_0 is Io && r->Err_0->Io_0@ == NOT_UTF8@,
{
    let format = metadata_format(path);
    let mut metadata = DocumentMetadata {
        title: None,
        author: None,
        subject: None,
        keywords: None,
        creator: None,
        producer: None,
        creation_date: None,
        modification_date: Some(modified),
        language: None,
        page_count: None,
        word_count: None,
        character_count: None,
        file_size: content.len() as u64,
        format: format.clone(),
    };
    if str_equal(format.as_str(), "pdf") {
        metadata.title = Some("PDF Document".to_string());
        metadata.author = Some("Unknown".to_string());
    } else if str_equal(format.as_str(), "office") {
        metadata.title = Some("Office Document".to_string());
        metadata.author = Some("Unknown".to_string());
    } else if str_equal(format.as_str(), "excel") {
        metadata.title = Some("Excel Spreadsheet".to_string());
    } else if str_equal(format.as_str(), "powerpoint") {
        metadata.title = Some("PowerPoint Presentation".to_string());
        metadata.author = Some("Unknown".to_string());
    } else if str_equal(format.as_str(), "epub") {
        metadata.title = Some("EPUB Book".to_string());
        metadata.author = Some("Unknown".to_string());
    } else if str_equal(format.as_str(), "html") {
        match read_text(content) {
            Ok(html) => {
                extract_html_metadata(html.as_str(), &mut metadata);
            },
            Err(e) => {
                return Err(e);
            },
        }
    } else if str_equal(format.as_str(), "text") {
        match read_text(content) {
            Ok(text) => {
                extract_text_metadata(text.as_str(), &mut metadata);
            },
            Err(e) => {
                return Err(e);
            },
        }
    }
    Ok(metadata)
}

/// The line for a count that is known.
pub open spec fn count_line(key: Seq<char>, count: Option<u32>) -> Seq<char> {
    match count {
        Some(n) => meta_line(key, Some(decimal(n as nat))),
        None => Seq::empty(),
    }
}

/// The line for a point in time that is known and can be shown.
pub open spec fn time_line(key: Seq<char>, seconds: Option<i64>) -> Seq<char> {
    match seconds {
        Some(s) => meta_line(key, utc_time_text(s as int, TIMESTAMP_FORMAT@)),
        None => Seq::empty(),
    }
}

/// The Markdown section that shows a document's metadata: a heading, one
/// line for each value that is known, and always the size and the format.
pub open spec fn metadata_markdown(m: MetadataView) -> Seq<char> {
    "## Document Metadata\n\n"@ + meta_line("- **Title**: "@, m.title) + meta_line(
        "- **Author**: "@,
        m.author,
    ) + meta_line("- **Subject**: "@, m.subject) + meta_line("- **Keywords**: "@, m.keywords)
        + meta_line("- **Creator**: "@, m.creator) + meta_line("- **Producer**: "@, m.producer)
        + time_line("- **Created**: "@, m.creation_date) + time_line(
        "- **Modified**: "@,
        m.modification_date,
    ) + meta_line("- **Language**: "@, m.language) + count_line("- **Pages**: "@, m.page_count)
        + count_line("- **Words**: "@, m.word_count) + count_line(
        "- **Characters**: "@,
        m.character_count,
    ) + meta_line("- **File Size**: "@, Some(file_size_text(m.file_size as nat))) + meta_line(
        "- **Format**: "@,
        Some(m.format),
    )
}

/// Appends the line for a count, if it is known.
fn push_count_line(out: &mut Vec<char>, key: &str, count: Option<u32>)
    ensures
        final(out)@ == old(out)@ + count_line(key@, count),
{
    match count {
        Some(n) => {
            push_str(out, key);
            push_decimal(out, n as u64);
            out.push('\n');
            assert(out@ =~= old(out)@ + (key@ + decimal(n as nat) + seq!['\n']));
        },
        None => {
            assert(out@ =~= old(out)@ + Seq::<char>::empty());
        },
    }
}

/// Appends the line for a point in time, if it is known and can be shown.
fn push_time_line(out: &mut Vec<char>, key: &str, seconds: Option<i64>)
    ensures
        final(out)@ == old(out)@ + time_line(key@, seconds),
{
    match seconds {
        Some(s) => {
            let text = format_timestamp(s);
            push_meta_line(out, key, &text);
        },
        None => {
            assert(out@ =~= old(out)@ + Seq::<char>::empty());
        },
    }
}

/// Appends the lines on who made the document and what it is about.
fn push_description_lines(out: &mut Vec<char>, m: &DocumentMetadata)
    ensures
        final(out)@ == old(out)@ + meta_line("- **Title**: "@, m@.title) + meta_line(
            "- **Author**: "@,
            m@.author,
        ) + meta_line("- **Subject**: "@, m@.subject) + meta_line("- **Keywords**: "@, m@.keywords)
            + meta_line("- **Creator**: "@, m@.creator) + meta_line(
            "- **Producer**: "@,
            m@.producer,
        ),
{
    push_meta_line(out, "- **Title**: ", &m.title);
    push_meta_line(out, "- **Author**: ", &m.author);
    push_meta_line(out, "- **Subject**: ", &m.subject);
    push_meta_line(out, "- **Keywords**: ", &m.keywords);
    push_meta_line(out, "- **Creator**: ", &m.creator);
    push_meta_line(out, "- **Producer**: ", &m.producer);
}

/// Shows a document's metadata as a Markdown section.
pub fn format_metadata_as_markdown(metadata: &DocumentMetadata) -> (r: String)
    ensures
        r@ == metadata_markdown(metadata@),
{
    let mut out: Vec<char> = Vec::new();
    push_str(&mut out, "## Document Metadata\n\n");
    push_description_lines(&mut out, metadata);
    push_time_line(&mut out, "- **Created**: ", metadata.creation_date);
    push_time_line(&mut out, "- **Modified**: ", metadata.modification_date);
    push_meta_line(&mut out, "- **Language**: ", &metadata.language);
    push_count_line(&mut out, "- **Pages**: ", metadata.page_count);
    push_count_line(&mut out, "- **Words**: ", metadata.word_count);
    push_count_line(&mut out, "- **Characters**: ", metadata.character_count);
    let size = Some(format_file_size(metadata.file_size));
    push_meta_line(&mut out, "- **File Size**: ", &size);
    let format = Some(metadata.format.clone());
    push_meta_line(&mut out, "- **Format**: ", &format);
    assert(out@ =~= metadata_markdown(metadata@));
    string_from_chars(out.as_slice())
}

} // verus!
