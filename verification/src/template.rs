//! What a template is rendered with.

use vstd::prelude::*;
use crate::chars::string_from_chars;
use crate::chars::to_chars;
use crate::strings::push_decimal;
use crate::strings::split_whitespace;
use crate::strings::decimal;
use crate::strings::views;
use crate::strings::words_of;

verus! {

/// What a template shows of the converted file.
#[derive(Debug, Clone)]
pub struct FileInfo {
    pub name: String,
    pub size: u64,
    pub format: String,
    pub modified: String,
}

/// Everything a template can show: the document's title, author and date
/// where they are given, its Markdown, its metadata as pairs of a key and a
/// value, and the file it came from.
#[derive(Debug, Clone)]
pub struct TemplateContext {
    pub title: Option<String>,
    pub author: Option<String>,
    pub date: Option<String>,
    pub content: String,
    pub metadata: Option<Vec<(String, String)>>,
    pub file_info: Option<FileInfo>,
}

/// Puts together what a template is rendered with.
pub fn create_template_context(
    title: Option<String>,
    author: Option<String>,
    date: Option<String>,
    content: String,
    metadata: Option<Vec<(String, String)>>,
    file_info: Option<FileInfo>,
) -> (context: TemplateContext)
    ensures
        context.title == title,
        context.author == author,
        context.date == date,
        context.content == content,
        context.metadata == metadata,
        context.file_info == file_info,
{
    TemplateContext { title, author, date, content, metadata, file_info }
}

/// The name of the template that is used where none is chosen.
pub const DEFAULT_TEMPLATE: &'static str = "default";

/// The number of whitespace-separated words of a text, as a numeral.
pub fn word_count_text(text: &str) -> (r: String)
    ensures
        r@ == decimal(words_of(text@).len()),
{
    let chars = to_chars(text);
    let words = split_whitespace(chars.as_slice());
    assert(views(words@).len() == words@.len());
    let mut out: Vec<char> = Vec::new();
    push_decimal(&mut out, words.len() as u64);
    string_from_chars(out.as_slice())
}

} // verus!
