//! The structural converter for plain text: every line is classified, and
//! a small state machine with at most one open block turns the classified
//! lines into Markdown.

use vstd::prelude::*;
use vstd::slice::slice_subrange;
use vstd::slice::slice_to_vec;
use crate::chars::char_is_numeric;
use crate::chars::option_text;
use crate::chars::char_is_uppercase;
use crate::chars::char_is_whitespace;
use crate::chars::is_numeric;
use crate::chars::is_uppercase;
use crate::chars::is_whitespace;
use crate::chars::push_chars;
use crate::chars::string_from_chars;
use crate::chars::to_chars;
use crate::cli::Args;
use crate::config::Config;
use crate::converter::frontmatter::full_front_matter;
use crate::converter::frontmatter::push_full_front_matter;
use crate::converter::frontmatter::shown_date;
use crate::converter::notice::notice_date;
use crate::converter::wrap::within_width;
use crate::converter::wrap::wrap_chars;
use crate::converter::wrap::wrapped;
use crate::error::C2mdError;
use crate::pattern::first_group;
use crate::pattern::regex_compiles;
use crate::pattern::regex_first_group;
use crate::strings::contains;
use crate::strings::contains_char;
use crate::strings::contains_seq;
use crate::strings::lines_of;
use crate::strings::split_lines;
use crate::strings::starts_with;
use crate::strings::str_equal;
use crate::strings::starts_with_seq;
use crate::strings::trim;
use crate::strings::trimmed;
use crate::strings::views;

verus! {

/// A classified line.
pub enum Line {
    /// Nothing but whitespace.
    Blank,
    /// A heading of the given level, with the trimmed line as its text.
    Heading { level: usize, text: Vec<char> },
    /// A bullet item, without its marker.
    Bullet(Vec<char>),
    /// A numbered item, without its number.
    Numbered(Vec<char>),
    /// A code fence, holding the trimmed line.
    Fence(Vec<char>),
    /// A quoted line, without its marker.
    Quote(Vec<char>),
    /// A line with inline code, holding the line as it was read.
    InlineCode(Vec<char>),
    /// Plain prose, holding the line as it was read.
    Prose(Vec<char>),
}

/// The mathematical value of a classified line.
pub enum LineView {
    Blank,
    Heading { level: nat, text: Seq<char> },
    Bullet(Seq<char>),
    Numbered(Seq<char>),
    Fence(Seq<char>),
    Quote(Seq<char>),
    InlineCode(Seq<char>),
    Prose(Seq<char>),
}

impl View for Line {
    type V = LineView;

    open spec fn view(&self) -> LineView {
        match self {
            Line::Blank => LineView::Blank,
            Line::Heading { level, text } => LineView::Heading {
                level: *level as nat,
                text: text@,
            },
            Line::Bullet(t) => LineView::Bullet(t@),
            Line::Numbered(t) => LineView::Numbered(t@),
            Line::Fence(t) => LineView::Fence(t@),
            Line::Quote(t) => LineView::Quote(t@),
            Line::InlineCode(t) => LineView::InlineCode(t@),
            Line::Prose(t) => LineView::Prose(t@),
        }
    }
}

/// The block that is open while lines are fed: none, a list, a code block,
/// a quote, or a paragraph with the text gathered so far.
pub enum OpenBlock {
    Closed,
    List,
    Code,
    Quote,
    Paragraph(Vec<char>),
}

/// The mathematical value of an open block.
pub enum OpenBlockView {
    Closed,
    List,
    Code,
    Quote,
    Paragraph(Seq<char>),
}

impl View for OpenBlock {
    type V = OpenBlockView;

    open spec fn view(&self) -> OpenBlockView {
        match self {
            OpenBlock::Closed => OpenBlockView::Closed,
            OpenBlock::List => OpenBlockView::List,
            OpenBlock::Code => OpenBlockView::Code,
            OpenBlock::Quote => OpenBlockView::Quote,
            OpenBlock::Paragraph(t) => OpenBlockView::Paragraph(t@),
        }
    }
}

/// The converter's state: the Markdown written so far and the open block.
pub struct Engine {
    pub out: Vec<char>,
    pub open: OpenBlock,
}

/// The mathematical value of the converter's state.
pub struct EngineView {
    pub out: Seq<char>,
    pub open: OpenBlockView,
}

impl View for Engine {
    type V = EngineView;

    open spec fn view(&self) -> EngineView {
        EngineView { out: self.out@, open: self.open@ }
    }
}

/// The pattern of a numbered list item: digits, a dot, whitespace, then the
/// item's text as the first group.
pub const NUMBERED_ITEM_PATTERN: &'static str = "^\\d+\\.\\s+(.+)";

/// The ASCII punctuation characters.
pub open spec fn is_ascii_punctuation(c: char) -> bool {
    ||| '!' <= c <= '/'
    ||| ':' <= c <= '@'
    ||| '[' <= c <= '`'
    ||| '{' <= c <= '~'
}

/// Whether a character may stand in a line that counts as a heading for
/// being written in capitals.
pub open spec fn is_shouting_char(c: char) -> bool {
    char_is_uppercase(c) || char_is_whitespace(c) || is_ascii_punctuation(c)
}

/// Whether `line` holds one of the words that mark a heading.
pub open spec fn has_marker_word(line: Seq<char>) -> bool {
    ||| contains_seq(line, "CHAPTER"@)
    ||| contains_seq(line, "SECTION"@)
    ||| contains_seq(line, "PART"@)
    ||| contains_seq(line, "INTRODUCTION"@)
    ||| contains_seq(line, "CONCLUSION"@)
    ||| contains_seq(line, "ABSTRACT"@)
    ||| contains_seq(line, "SUMMARY"@)
    ||| contains_seq(line, "APPENDIX"@)
}

/// Whether a trimmed line is a heading: shorter than 100 characters and
/// either all capitals, punctuation and whitespace, or starting with a
/// numeric character, or holding a marker word.
pub open spec fn is_heading_line(line: Seq<char>) -> bool {
    line.len() < 100 && (
        (forall|i: int| 0 <= i < line.len() ==> is_shouting_char(#[trigger] line[i]))
        || (line.len() > 0 && char_is_numeric(line[0]))
        || has_marker_word(line)
    )
}

/// The level of a heading, by the length of its trimmed line.
pub open spec fn heading_level_of(len: nat) -> nat {
    if len < 20 {
        1
    } else if len < 40 {
        2
    } else if len < 60 {
        3
    } else {
        4
    }
}

/// Whether a character marks a bullet item.
pub open spec fn is_bullet_marker(c: char) -> bool {
    c == '\u{2022}' || c == '-' || c == '*'
}

/// The first index at or after `i` that holds no bullet marker.
pub open spec fn skip_bullet_markers(s: Seq<char>, i: int) -> int
    decreases s.len() - i,
{
    if 0 <= i < s.len() && is_bullet_marker(s[i]) {
        skip_bullet_markers(s, i + 1)
    } else {
        i
    }
}

/// The first index at or after `i` that holds no quote marker.
pub open spec fn skip_quote_markers(s: Seq<char>, i: int) -> int
    decreases s.len() - i,
{
    if 0 <= i < s.len() && s[i] == '>' {
        skip_quote_markers(s, i + 1)
    } else {
        i
    }
}

/// The text of a bullet item: the line without its leading markers, trimmed.
pub open spec fn bullet_text(line: Seq<char>) -> Seq<char> {
    trimmed(line.subrange(skip_bullet_markers(line, 0), line.len() as int))
}

/// The text of a quoted line: the line without its leading markers, trimmed.
pub open spec fn quote_text(line: Seq<char>) -> Seq<char> {
    trimmed(line.subrange(skip_quote_markers(line, 0), line.len() as int))
}

/// The text of a numbered item, where the line is one.
pub open spec fn numbered_text(line: Seq<char>) -> Option<Seq<char>> {
    if regex_compiles(NUMBERED_ITEM_PATTERN@) {
        regex_first_group(NUMBERED_ITEM_PATTERN@, line)
    } else {
        None
    }
}

/// Whether a trimmed line opens or closes a code fence.
pub open spec fn is_fence_line(line: Seq<char>) -> bool {
    starts_with_seq(line, seq!['`', '`', '`']) || starts_with_seq(line, seq!['~', '~', '~'])
}

/// The class of a line that is not blank, decided on its trimmed form
/// `line` with `numbered` as the outcome of the numbered-item search; `raw`
/// is the line as it was read. The first rule that applies wins: heading,
/// bullet, numbered item, fence, quote, inline code, prose.
pub open spec fn classified(
    raw: Seq<char>,
    line: Seq<char>,
    numbered: Option<Seq<char>>,
) -> LineView {
    if is_heading_line(line) {
        LineView::Heading { level: heading_level_of(line.len()), text: line }
    } else if line.len() > 0 && is_bullet_marker(line[0]) {
        LineView::Bullet(bullet_text(line))
    } else if numbered is Some {
        LineView::Numbered(numbered->Some_0)
    } else if is_fence_line(line) {
        LineView::Fence(line)
    } else if line.len() > 0 && line[0] == '>' {
        LineView::Quote(quote_text(line))
    } else if line.contains('`') {
        LineView::InlineCode(raw)
    } else {
        LineView::Prose(raw)
    }
}

/// The class of a line as it was read.
pub open spec fn classify(raw: Seq<char>) -> LineView {
    let line = trimmed(raw);
    if line.len() == 0 {
        LineView::Blank
    } else {
        classified(raw, line, numbered_text(line))
    }
}

/// `n` number signs.
pub open spec fn hashes(n: nat) -> Seq<char> {
    Seq::new(n, |i: int| '#')
}

/// What closing a block writes: a line feed after a list, a code block or
/// a quote; the paragraph and a blank line after a paragraph.
pub open spec fn closing(open: OpenBlockView) -> Seq<char> {
    match open {
        OpenBlockView::Closed => Seq::empty(),
        OpenBlockView::List => seq!['\n'],
        OpenBlockView::Code => seq!['\n'],
        OpenBlockView::Quote => seq!['\n'],
        OpenBlockView::Paragraph(text) => text + seq!['\n', '\n'],
    }
}

/// What opening a list or a quote writes first: nothing while that block is
/// open already; otherwise whatever closes the open block, and a blank line.
pub open spec fn opening(open: OpenBlockView, wanted: OpenBlockView) -> Seq<char> {
    if open == wanted {
        Seq::empty()
    } else {
        closing(open) + seq!['\n']
    }
}

/// The state after one classified line.
pub open spec fn step(state: EngineView, line: LineView) -> EngineView {
    match line {
        LineView::Blank => EngineView {
            out: state.out + closing(state.open),
            open: OpenBlockView::Closed,
        },
        LineView::Heading { level, text } => EngineView {
            out: state.out + closing(state.open) + hashes(level) + seq![' '] + text + seq![
                '\n',
                '\n',
            ],
            open: OpenBlockView::Closed,
        },
        LineView::Bullet(text) => EngineView {
            out: state.out + opening(state.open, OpenBlockView::List) + seq!['-', ' '] + text
                + seq!['\n'],
            open: OpenBlockView::List,
        },
        LineView::Numbered(text) => EngineView {
            out: state.out + opening(state.open, OpenBlockView::List) + seq!['1', '.', ' ']
                + text + seq!['\n'],
            open: OpenBlockView::List,
        },
        LineView::Fence(text) => if state.open == OpenBlockView::Code {
            EngineView { out: state.out + text + seq!['\n'], open: OpenBlockView::Closed }
        } else {
            EngineView {
                out: state.out + closing(state.open) + text + seq!['\n'],
                open: OpenBlockView::Code,
            }
        },
        LineView::Quote(text) => EngineView {
            out: state.out + opening(state.open, OpenBlockView::Quote) + seq!['>', ' '] + text
                + seq!['\n'],
            open: OpenBlockView::Quote,
        },
        LineView::InlineCode(text) => EngineView {
            out: state.out + closing(state.open) + text + seq!['\n'],
            open: OpenBlockView::Closed,
        },
        LineView::Prose(text) => match state.open {
            OpenBlockView::Paragraph(sofar) => EngineView {
                out: state.out,
                open: OpenBlockView::Paragraph(sofar + seq![' '] + text),
            },
            _ => EngineView {
                out: state.out + closing(state.open),
                open: OpenBlockView::Paragraph(text),
            },
        },
    }
}

/// The state before the first line.
pub open spec fn initial() -> EngineView {
    EngineView { out: Seq::empty(), open: OpenBlockView::Closed }
}

/// The state after every line of `lines`, fed in order.
pub open spec fn run(state: EngineView, lines: Seq<Seq<char>>) -> EngineView
    decreases lines.len(),
{
    if lines.len() == 0 {
        state
    } else {
        step(run(state, lines.drop_last()), classify(lines.last()))
    }
}

/// The document at the end of input: a paragraph still open is written
/// out as it stands; nothing is added for any other block.
pub open spec fn finished(state: EngineView) -> Seq<char> {
    match state.open {
        OpenBlockView::Paragraph(text) => state.out + text,
        _ => state.out,
    }
}

/// The Markdown structure inferred from `text`.
pub open spec fn structured(text: Seq<char>) -> Seq<char> {
    finished(run(initial(), lines_of(text)))
}

/// The Markdown for `text`: its inferred structure, hard-wrapped at `width`
/// where `hard` is set.
pub open spec fn markdown_of(text: Seq<char>, hard: bool, width: nat) -> Seq<char> {
    if hard {
        wrapped(structured(text), width)
    } else {
        structured(text)
    }
}

/// The lines joined by single spaces.
pub open spec fn joined_by_spaces(lines: Seq<Seq<char>>) -> Seq<char>
    decreases lines.len(),
{
    if lines.len() == 0 {
        Seq::empty()
    } else if lines.len() == 1 {
        lines[0]
    } else {
        joined_by_spaces(lines.drop_last()) + seq![' '] + lines.last()
    }
}

/// Whether a line is prose: it is not blank and none of the rules for
/// headings, lists, fences, quotes and inline code applies to it.
pub open spec fn is_prose(line: Seq<char>) -> bool {
    classify(line) == LineView::Prose(line)
}

/// Feeding a run of prose lines to a state without an open paragraph
/// closes the open block and leaves one paragraph open that holds the
/// lines joined by single spaces.
pub proof fn lemma_prose_run(state: EngineView, lines: Seq<Seq<char>>)
    requires
        lines.len() >= 1,
        forall|i: int| 0 <= i < lines.len() ==> is_prose(#[trigger] lines[i]),
        !(state.open is Paragraph),
    ensures
        run(state, lines) == (EngineView {
            out: state.out + closing(state.open),
            open: OpenBlockView::Paragraph(joined_by_spaces(lines)),
        }),
    decreases lines.len(),
{
    if lines.len() == 1 {
        assert(lines.drop_last().len() == 0);
        assert(run(state, lines.drop_last()) == state);
    } else {
        let rest = lines.drop_last();
        assert forall|i: int| 0 <= i < rest.len() implies is_prose(#[trigger] rest[i]) by {
            assert(rest[i] == lines[i]);
        }
        lemma_prose_run(state, rest);
    }
}

/// The paragraph law: a run of one or more prose lines followed by a blank
/// line, fed to a state without an open paragraph, writes exactly one
/// paragraph, which holds the lines joined by single spaces and is
/// followed by exactly one blank line; no block is open afterwards.
pub proof fn lemma_paragraph(state: EngineView, lines: Seq<Seq<char>>, blank: Seq<char>)
    requires
        lines.len() >= 1,
        forall|i: int| 0 <= i < lines.len() ==> is_prose(#[trigger] lines[i]),
        classify(blank) == LineView::Blank,
        !(state.open is Paragraph),
    ensures
        run(state, lines.push(blank)) == (EngineView {
            out: state.out + closing(state.open) + joined_by_spaces(lines) + seq!['\n', '\n'],
            open: OpenBlockView::Closed,
        }),
{
    let all = lines.push(blank);
    assert(all.drop_last() =~= lines);
    assert(all.last() == blank);
    lemma_prose_run(state, lines);
    assert(state.out + closing(state.open) + (joined_by_spaces(lines) + seq!['\n', '\n'])
        =~= state.out + closing(state.open) + joined_by_spaces(lines) + seq!['\n', '\n']);
}

/// The paragraph law for a whole text: where the lines of a text are one
/// or more prose lines and then a blank line, its structure is the lines
/// joined by single spaces, followed by one blank line.
pub proof fn lemma_single_paragraph(text: Seq<char>, lines: Seq<Seq<char>>, blank: Seq<char>)
    requires
        lines.len() >= 1,
        forall|i: int| 0 <= i < lines.len() ==> is_prose(#[trigger] lines[i]),
        classify(blank) == LineView::Blank,
        lines_of(text) == lines.push(blank),
    ensures
        structured(text) == joined_by_spaces(lines) + seq!['\n', '\n'],
{
    lemma_paragraph(initial(), lines, blank);
    assert(Seq::<char>::empty() + Seq::<char>::empty() + joined_by_spaces(lines) + seq![
        '\n',
        '\n',
    ] =~= joined_by_spaces(lines) + seq!['\n', '\n']);
}

/// Whether a character is ASCII punctuation.
pub fn ascii_punctuation(c: char) -> (b: bool)
    ensures
        b == is_ascii_punctuation(c),
{
    (c >= '!' && c <= '/') || (c >= ':' && c <= '@') || (c >= '[' && c <= '`') || (c >= '{' && c
        <= '~')
}

/// Whether every character of `line` is a capital, whitespace or ASCII
/// punctuation.
fn all_shouting(line: &[char]) -> (b: bool)
    ensures
        b == (forall|i: int| 0 <= i < line@.len() ==> is_shouting_char(#[trigger] line@[i])),
{
    let mut i: usize = 0;
    while i < line.len()
        invariant
            i <= line.len(),
            forall|j: int| 0 <= j < i ==> is_shouting_char(#[trigger] line@[j]),
        decreases line.len() - i,
    {
        let c = line[i];
        if !(is_uppercase(c) || is_whitespace(c) || ascii_punctuation(c)) {
            return false;
        }
        i += 1;
    }
    true
}

/// Whether `line` holds one of the words that mark a heading.
fn contains_marker_word(line: &[char]) -> (b: bool)
    ensures
        b == has_marker_word(line@),
{
    contains(line, to_chars("CHAPTER").as_slice()) || contains(
        line,
        to_chars("SECTION").as_slice(),
    ) || contains(line, to_chars("PART").as_slice()) || contains(
        line,
        to_chars("INTRODUCTION").as_slice(),
    ) || contains(line, to_chars("CONCLUSION").as_slice()) || contains(
        line,
        to_chars("ABSTRACT").as_slice(),
    ) || contains(line, to_chars("SUMMARY").as_slice()) || contains(
        line,
        to_chars("APPENDIX").as_slice(),
    )
}

/// Whether a trimmed line reads as a heading.
pub fn is_heading(line: &[char]) -> (b: bool)
    ensures
        b == is_heading_line(line@),
{
    line.len() < 100 && (all_shouting(line) || (line.len() > 0 && is_numeric(line[0]))
        || contains_marker_word(line))
}

/// The level of the heading that a trimmed line makes: 1 below 20
/// characters, 2 below 40, 3 below 60, and 4 from there on.
pub fn heading_level(line: &[char]) -> (level: usize)
    ensures
        level == heading_level_of(line@.len()),
        1 <= level <= 4,
{
    if line.len() < 20 {
        1
    } else if line.len() < 40 {
        2
    } else if line.len() < 60 {
        3
    } else {
        4
    }
}

/// Whether a character marks a bullet item.
fn bullet_marker(c: char) -> (b: bool)
    ensures
        b == is_bullet_marker(c),
{
    c == '\u{2022}' || c == '-' || c == '*'
}

/// The text of a bullet item.
fn bullet_item(line: &[char]) -> (text: Vec<char>)
    ensures
        text@ == bullet_text(line@),
{
    let mut i: usize = 0;
    while i < line.len() && bullet_marker(line[i])
        invariant
            i <= line.len(),
            skip_bullet_markers(line@, 0) == skip_bullet_markers(line@, i as int),
        decreases line.len() - i,
    {
        i += 1;
    }
    slice_to_vec(trim(slice_subrange(line, i, line.len())))
}

/// The text of a quoted line.
fn quoted(line: &[char]) -> (text: Vec<char>)
    ensures
        text@ == quote_text(line@),
{
    let mut i: usize = 0;
    while i < line.len() && line[i] == '>'
        invariant
            i <= line.len(),
            skip_quote_markers(line@, 0) == skip_quote_markers(line@, i as int),
        decreases line.len() - i,
    {
        i += 1;
    }
    slice_to_vec(trim(slice_subrange(line, i, line.len())))
}

/// Searches a trimmed line for the pattern of a numbered item. A pattern
/// that does not compile counts as no match.
fn numbered_item(line: &[char]) -> (text: Option<Vec<char>>)
    ensures
        text is Some == numbered_text(line@) is Some,
        text is Some ==> text->Some_0@ == numbered_text(line@)->Some_0,
{
    let text = string_from_chars(line);
    match first_group(NUMBERED_ITEM_PATTERN, text.as_str()) {
        Ok(Some(item)) => Some(to_chars(item.as_str())),
        Ok(None) => None,
        Err(_) => None,
    }
}

/// Whether a trimmed line opens or closes a code fence.
fn is_fence(line: &[char]) -> (b: bool)
    ensures
        b == is_fence_line(line@),
{
    let backticks: [char; 3] = ['`', '`', '`'];
    let tildes: [char; 3] = ['~', '~', '~'];
    assert(backticks@ =~= seq!['`', '`', '`']);
    assert(tildes@ =~= seq!['~', '~', '~']);
    starts_with(line, backticks.as_slice()) || starts_with(line, tildes.as_slice())
}

/// Classifies a line that is not blank, given its trimmed form and the
/// outcome of the numbered-item search on it.
pub fn classify_with(raw: &[char], line: &[char], numbered: Option<Vec<char>>) -> (class: Line)
    ensures
        class@ == classified(
            raw@,
            line@,
            match numbered {
                Some(text) => Some(text@),
                None => None,
            },
        ),
{
    if is_heading(line) {
        Line::Heading { level: heading_level(line), text: slice_to_vec(line) }
    } else if line.len() > 0 && bullet_marker(line[0]) {
        Line::Bullet(bullet_item(line))
    } else if let Some(text) = numbered {
        Line::Numbered(text)
    } else if is_fence(line) {
        Line::Fence(slice_to_vec(line))
    } else if line.len() > 0 && line[0] == '>' {
        Line::Quote(quoted(line))
    } else if contains_char(line, '`') {
        Line::InlineCode(slice_to_vec(raw))
    } else {
        Line::Prose(slice_to_vec(raw))
    }
}

/// Classifies a line as it was read.
pub fn classify_line(raw: &[char]) -> (class: Line)
    ensures
        class@ == classify(raw@),
{
    let line = trim(raw);
    if line.len() == 0 {
        Line::Blank
    } else {
        let numbered = numbered_item(line);
        classify_with(raw, line, numbered)
    }
}

/// Ends the current block: writes what closes `open`.
pub fn end_current_block(out: &mut Vec<char>, open: OpenBlock)
    ensures
        final(out)@ == old(out)@ + closing(open@),
{
    match open {
        OpenBlock::Closed => {
            assert(out@ + Seq::<char>::empty() =~= out@);
        },
        OpenBlock::List => {
            out.push('\n');
        },
        OpenBlock::Code => {
            out.push('\n');
        },
        OpenBlock::Quote => {
            out.push('\n');
        },
        OpenBlock::Paragraph(text) => {
            let ghost before = out@;
            push_chars(out, text.as_slice());
            out.push('\n');
            out.push('\n');
            assert(out@ =~= before + (text@ + seq!['\n', '\n']));
        },
    }
}

impl Engine {
    /// The state before the first line: nothing written, no block open.
    pub fn new() -> (engine: Engine)
        ensures
            engine@ == initial(),
    {
        Engine { out: Vec::new(), open: OpenBlock::Closed }
    }

    /// Takes one classified line and returns the state that follows.
    pub fn feed(self, line: Line) -> (next: Engine)
        ensures
            next@ == step(self@, line@),
    {
        let ghost before = self@;
        let Engine { out, open } = self;
        let mut out = out;
        match line {
            Line::Blank => {
                end_current_block(&mut out, open);
                Engine { out, open: OpenBlock::Closed }
            },
            Line::Heading { level, text } => {
                end_current_block(&mut out, open);
                let ghost closed = out@;
                let mut i: usize = 0;
                while i < level
                    invariant
                        i <= level,
                        out@ == closed + hashes(i as nat),
                    decreases level - i,
                {
                    out.push('#');
                    assert(out@ =~= closed + hashes((i + 1) as nat));
                    i += 1;
                }
                out.push(' ');
                push_chars(&mut out, text.as_slice());
                out.push('\n');
                out.push('\n');
                assert(out@ =~= before.out + closing(before.open) + hashes(level as nat) + seq![
                    ' ',
                ] + text@ + seq!['\n', '\n']);
                Engine { out, open: OpenBlock::Closed }
            },
            Line::Bullet(text) => {
                match open {
                    OpenBlock::List => {},
                    other => {
                        end_current_block(&mut out, other);
                        out.push('\n');
                    },
                }
                out.push('-');
                out.push(' ');
                push_chars(&mut out, text.as_slice());
                out.push('\n');
                assert(out@ =~= before.out + opening(before.open, OpenBlockView::List) + seq![
                    '-',
                    ' ',
                ] + text@ + seq!['\n']);
                Engine { out, open: OpenBlock::List }
            },
            Line::Numbered(text) => {
                match open {
                    OpenBlock::List => {},
                    other => {
                        end_current_block(&mut out, other);
                        out.push('\n');
                    },
                }
                out.push('1');
                out.push('.');
                out.push(' ');
                push_chars(&mut out, text.as_slice());
                out.push('\n');
                assert(out@ =~= before.out + opening(before.open, OpenBlockView::List) + seq![
                    '1',
                    '.',
                    ' ',
                ] + text@ + seq!['\n']);
                Engine { out, open: OpenBlock::List }
            },
            Line::Fence(text) => {
                match open {
                    OpenBlock::Code => {
                        push_chars(&mut out, text.as_slice());
                        out.push('\n');
                        assert(out@ =~= before.out + text@ + seq!['\n']);
                        Engine { out, open: OpenBlock::Closed }
                    },
                    other => {
                        end_current_block(&mut out, other);
                        push_chars(&mut out, text.as_slice());
                        out.push('\n');
                        assert(out@ =~= before.out + closing(before.open) + text@ + seq!['\n']);
                        Engine { out, open: OpenBlock::Code }
                    },
                }
            },
            Line::Quote(text) => {
                match open {
                    OpenBlock::Quote => {},
                    other => {
                        end_current_block(&mut out, other);
                        out.push('\n');
                    },
                }
                out.push('>');
                out.push(' ');
                push_chars(&mut out, text.as_slice());
                out.push('\n');
                assert(out@ =~= before.out + opening(before.open, OpenBlockView::Quote) + seq![
                    '>',
                    ' ',
                ] + text@ + seq!['\n']);
                Engine { out, open: OpenBlock::Quote }
            },
            Line::InlineCode(text) => {
                end_current_block(&mut out, open);
                push_chars(&mut out, text.as_slice());
                out.push('\n');
                assert(out@ =~= before.out + closing(before.open) + text@ + seq!['\n']);
                Engine { out, open: OpenBlock::Closed }
            },
            Line::Prose(text) => {
                match open {
                    OpenBlock::Paragraph(sofar) => {
                        let mut paragraph = sofar;
                        paragraph.push(' ');
                        push_chars(&mut paragraph, text.as_slice());
                        assert(paragraph@ =~= sofar@ + seq![' '] + text@);
                        Engine { out, open: OpenBlock::Paragraph(paragraph) }
                    },
                    other => {
                        end_current_block(&mut out, other);
                        Engine { out, open: OpenBlock::Paragraph(text) }
                    },
                }
            },
        }
    }

    /// Ends the input and returns the document.
    pub fn finish(self) -> (document: Vec<char>)
        ensures
            document@ == finished(self@),
    {
        let Engine { out, open } = self;
        let mut out = out;
        match open {
            OpenBlock::Paragraph(text) => {
                push_chars(&mut out, text.as_slice());
            },
            _ => {},
        }
        out
    }
}

/// Infers the Markdown structure of the characters of a text.
pub fn structure_chars(text: &[char]) -> (document: Vec<char>)
    ensures
        document@ == structured(text@),
{
    let lines = split_lines(text);
    let ghost all = views(lines@);
    let mut engine = Engine::new();
    let mut i: usize = 0;
    while i < lines.len()
        invariant
            i <= lines.len(),
            all == views(lines@),
            engine@ == run(initial(), all.take(i as int)),
        decreases lines.len() - i,
    {
        assert(all.take(i + 1).drop_last() =~= all.take(i as int));
        assert(all.take(i + 1).last() == lines[i as int]@);
        let class = classify_line(lines[i].as_slice());
        engine = engine.feed(class);
        i += 1;
    }
    assert(all.take(lines.len() as int) =~= all);
    engine.finish()
}

/// Converts plain text to Markdown. Every line is classified as blank,
/// heading, bullet item, numbered item, code fence, quote, inline code or
/// prose, and written out through the block state machine; with wrap mode
/// `hard` in `config` the document is then hard-wrapped at `config.width`,
/// so that every line is within the width or a single word. The conversion
/// never fails.
pub fn text_to_markdown(text: &str, config: &Config, args: &Args) -> (r: Result<String, C2mdError>)
    ensures
        r is Ok,
        r->Ok_0@ == markdown_of(text@, config.wraps_hard(), config.width as nat),
        config.wraps_hard() ==> forall|k: int|
            0 <= k < lines_of(r->Ok_0@).len() ==> within_width(
                #[trigger] lines_of(r->Ok_0@)[k],
                config.width as nat,
            ),
{
    let chars = to_chars(text);
    let document = structure_chars(chars.as_slice());
    if str_equal(config.wrap.as_str(), "hard") {
        let folded = wrap_chars(document.as_slice(), config.width);
        Ok(string_from_chars(folded.as_slice()))
    } else {
        Ok(string_from_chars(document.as_slice()))
    }
}

/// Whether a trimmed line may serve as a title: between 6 and 79
/// characters, without a full stop or a comma, and with no space at either
/// end.
pub open spec fn title_candidate(line: Seq<char>) -> bool {
    &&& 5 < line.len() < 80
    &&& !line.contains('.')
    &&& !line.contains(',')
    &&& line[0] != ' '
    &&& line.last() != ' '
}

/// The title found among the lines from index `i` up to the fifth line:
/// the first that, trimmed, is shorter than 100 characters and may serve
/// as a title.
pub open spec fn title_from(lines: Seq<Seq<char>>, i: int) -> Option<Seq<char>>
    decreases lines.len() - i,
{
    if i < 0 || i >= lines.len() || i >= 5 {
        None
    } else {
        let line = trimmed(lines[i]);
        if 0 < line.len() < 100 && title_candidate(line) {
            Some(line)
        } else {
            title_from(lines, i + 1)
        }
    }
}

/// The title that the first five lines of a text offer, if any.
pub open spec fn title_of(text: Seq<char>) -> Option<Seq<char>> {
    title_from(lines_of(text), 0)
}

/// The title of the front matter: the one the options give, or else the one
/// the text offers.
pub open spec fn shown_title(args: Args, text: Seq<char>) -> Option<Seq<char>> {
    match args.title {
        Some(t) => Some(t@),
        None => title_of(text),
    }
}

/// The Markdown for a plain text, with `today` as the date where the
/// options give none: front matter as configured, then the converted text.
pub open spec fn text_document(
    text: Seq<char>,
    config: Config,
    args: Args,
    today: Seq<char>,
) -> Seq<char> {
    full_front_matter(
        config.wants_frontmatter(),
        shown_title(args, text),
        option_text(args.author),
        shown_date(option_text(args.date), today),
    ) + markdown_of(text, config.wraps_hard(), config.width as nat)
}

/// Whether a trimmed line may serve as a title.
pub fn is_title_candidate(line: &[char]) -> (b: bool)
    ensures
        b == title_candidate(line@),
{
    line.len() > 5 && line.len() < 80 && !contains_char(line, '.') && !contains_char(line, ',')
        && line[0] != ' ' && line[line.len() - 1] != ' '
}

/// Looks for a title among the first five lines of `text`.
pub fn extract_title_from_text(text: &str) -> (r: Option<String>)
    ensures
        option_text(r) == title_of(text@),
{
    let chars = to_chars(text);
    let lines = split_lines(chars.as_slice());
    let ghost all = views(lines@);
    let mut i: usize = 0;
    while i < lines.len() && i < 5
        invariant
            i <= lines.len(),
            all == views(lines@),
            all == lines_of(text@),
            title_of(text@) == title_from(all, i as int),
        decreases lines.len() - i,
    {
        assert(all[i as int] == lines[i as int]@);
        let line = trim(lines[i].as_slice());
        if line.len() > 0 && line.len() < 100 && is_title_candidate(line) {
            return Some(string_from_chars(line));
        }
        i += 1;
    }
    None
}

/// Writes the Markdown for a plain text, taking `today` for the date where
/// the options give none.
pub fn text_markdown(content: &str, config: &Config, args: &Args, today: &str) -> (r: String)
    ensures
        r@ == text_document(content@, *config, *args, today@),
{
    let mut out: Vec<char> = Vec::new();
    let date: &str = match &args.date {
        Some(d) => d.as_str(),
        None => today,
    };
    match &args.title {
        Some(_) => {
            push_full_front_matter(&mut out, config, &args.title, &args.author, date);
        },
        None => {
            let title = extract_title_from_text(content);
            push_full_front_matter(&mut out, config, &title, &args.author, date);
        },
    }
    let chars = to_chars(content);
    let document = structure_chars(chars.as_slice());
    if str_equal(config.wrap.as_str(), "hard") {
        let folded = wrap_chars(document.as_slice(), config.width);
        push_chars(&mut out, folded.as_slice());
    } else {
        push_chars(&mut out, document.as_slice());
    }
    string_from_chars(out.as_slice())
}

/// Converts the content of a plain-text file to Markdown: front matter as
/// configured, with the title the options give or else the one the text
/// offers, then the text with its inferred structure. The date of the front
/// matter is the one the options give, or else the day of the call. Never
/// fails.
pub fn convert_text(content: &str, config: &Config, args: &Args) -> (r: Result<String, C2mdError>)
    ensures
        r is Ok,
        exists|today: Seq<char>| r->Ok_0@ == text_document(content@, *config, *args, today),
{
    let date = notice_date(config, args);
    Ok(text_markdown(content, config, args, date.as_str()))
}

} // verus!
