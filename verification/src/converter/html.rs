//! HTML: sanitized by `ammonia`, then reduced to Markdown by replacing
//! the common tags and stripping the rest.

use vstd::prelude::*;
use crate::chars::option_text;
use crate::chars::push_str;
use crate::chars::string_from_chars;
use crate::chars::to_chars;
use crate::cli::Args;
use crate::config::Config;
use crate::converter::frontmatter::full_front_matter;
use crate::converter::frontmatter::push_full_front_matter;
use crate::converter::frontmatter::shown_date;
use crate::converter::notice::notice_date;
use crate::converter::wrap::wrap_chars;
use crate::converter::wrap::wrapped;
use crate::error::C2mdError;
use crate::pattern::error_text;
use crate::pattern::regex_compiles;
use crate::pattern::regex_replaced;
use crate::pattern::replace_all;
use crate::strings::replace;
use crate::strings::replaced;
use crate::strings::str_equal;

verus! {

/// The pattern of a tag: an angle bracket, anything but a closing bracket,
/// and the closing bracket.
pub const TAG_PATTERN: &'static str = "<[^>]*>";

/// The pattern of two or more blank lines in a row.
pub const BLANK_LINES_PATTERN: &'static str = "\\n\\s*\\n\\s*\\n";

/// What `ammonia::clean` leaves of an HTML text.
pub uninterp spec fn cleaned_html(html: Seq<char>) -> Seq<char>;

/// Calls `ammonia::clean`. The result is the crate's sanitized form of the
/// HTML, under its default settings.
#[verifier::external_body]
pub(crate) fn clean(html: &str) -> (r: String)
    ensures
        r@ == cleaned_html(html@),
{
    ammonia::clean(html)
}

/// `html` with the common tags replaced by their Markdown, one kind of tag
/// after the other: headings, paragraphs, emphasis, code, lists, breaks.
pub open spec fn tags_replaced(html: Seq<char>) -> Seq<char> {
    let s = html;
    let s = replaced(s, "<h1>"@, "# "@);
    let s = replaced(s, "</h1>"@, "\n\n"@);
    let s = replaced(s, "<h2>"@, "## "@);
    let s = replaced(s, "</h2>"@, "\n\n"@);
    let s = replaced(s, "<h3>"@, "### "@);
    let s = replaced(s, "</h3>"@, "\n\n"@);
    let s = replaced(s, "<h4>"@, "#### "@);
    let s = replaced(s, "</h4>"@, "\n\n"@);
    let s = replaced(s, "<h5>"@, "##### "@);
    let s = replaced(s, "</h5>"@, "\n\n"@);
    let s = replaced(s, "<h6>"@, "###### "@);
    let s = replaced(s, "</h6>"@, "\n\n"@);
    let s = replaced(s, "<p>"@, ""@);
    let s = replaced(s, "</p>"@, "\n\n"@);
    let s = replaced(s, "<strong>"@, "**"@);
    let s = replaced(s, "</strong>"@, "**"@);
    let s = replaced(s, "<b>"@, "**"@);
    let s = replaced(s, "</b>"@, "**"@);
    let s = replaced(s, "<em>"@, "*"@);
    let s = replaced(s, "</em>"@, "*"@);
    let s = replaced(s, "<i>"@, "*"@);
    let s = replaced(s, "</i>"@, "*"@);
    let s = replaced(s, "<code>"@, "`"@);
    let s = replaced(s, "</code>"@, "`"@);
    let s = replaced(s, "<pre>"@, "```\n"@);
    let s = replaced(s, "</pre>"@, "\n```\n"@);
    let s = replaced(s, "<ul>"@, ""@);
    let s = replaced(s, "</ul>"@, "\n"@);
    let s = replaced(s, "<ol>"@, ""@);
    let s = replaced(s, "</ol>"@, "\n"@);
    let s = replaced(s, "<li>"@, "- "@);
    let s = replaced(s, "</li>"@, "\n"@);
    let s = replaced(s, "<br>"@, "\n"@);
    let s = replaced(s, "<br/>"@, "\n"@);
    let s = replaced(s, "<br />"@, "\n"@);
    s
}

/// The Markdown body of an HTML text: the common tags replaced, every other
/// tag removed, and runs of blank lines reduced to one; `None` where one of
/// the two patterns does not compile.
pub open spec fn html_body(html: Seq<char>) -> Option<Seq<char>> {
    if regex_compiles(TAG_PATTERN@) && regex_compiles(BLANK_LINES_PATTERN@) {
        Some(
            regex_replaced(
                BLANK_LINES_PATTERN@,
                regex_replaced(TAG_PATTERN@, tags_replaced(html), Seq::empty()),
                "\n\n"@,
            ),
        )
    } else {
        None
    }
}

/// The document made of front matter and a body, hard-wrapped where the
/// configuration asks for it.
pub open spec fn html_page(body: Seq<char>, config: Config, args: Args, today: Seq<char>) -> Seq<
    char,
> {
    let page = full_front_matter(
        config.wants_frontmatter(),
        option_text(args.title),
        option_text(args.author),
        shown_date(option_text(args.date), today),
    ) + body;
    if config.wraps_hard() {
        wrapped(page, config.width as nat)
    } else {
        page
    }
}

/// The Markdown for an HTML text, with `today` as the date where the
/// options give none; `None` where a pattern does not compile.
pub open spec fn html_document(
    html: Seq<char>,
    config: Config,
    args: Args,
    today: Seq<char>,
) -> Option<Seq<char>> {
    match html_body(html) {
        Some(body) => Some(html_page(body, config, args, today)),
        None => None,
    }
}

/// Replaces every occurrence of `from` in `text` by `to`.
fn replace_text(text: Vec<char>, from: &str, to: &str) -> (r: Vec<char>)
    ensures
        r@ == replaced(text@, from@, to@),
{
    replace(text.as_slice(), to_chars(from).as_slice(), to_chars(to).as_slice())
}

/// Replaces the common tags of `html` by their Markdown.
pub fn replace_tags(html: &str) -> (r: String)
    ensures
        r@ == tags_replaced(html@),
{
    let s = to_chars(html);
    let s = replace_text(s, "<h1>", "# ");
    let s = replace_text(s, "</h1>", "\n\n");
    let s = replace_text(s, "<h2>", "## ");
    let s = replace_text(s, "</h2>", "\n\n");
    let s = replace_text(s, "<h3>", "### ");
    let s = replace_text(s, "</h3>", "\n\n");
    let s = replace_text(s, "<h4>", "#### ");
    let s = replace_text(s, "</h4>", "\n\n");
    let s = replace_text(s, "<h5>", "##### ");
    let s = replace_text(s, "</h5>", "\n\n");
    let s = replace_text(s, "<h6>", "###### ");
    let s = replace_text(s, "</h6>", "\n\n");
    let s = replace_text(s, "<p>", "");
    let s = replace_text(s, "</p>", "\n\n");
    let s = replace_text(s, "<strong>", "**");
    let s = replace_text(s, "</strong>", "**");
    let s = replace_text(s, "<b>", "**");
    let s = replace_text(s, "</b>", "**");
    let s = replace_text(s, "<em>", "*");
    let s = replace_text(s, "</em>", "*");
    let s = replace_text(s, "<i>", "*");
    let s = replace_text(s, "</i>", "*");
    let s = replace_text(s, "<code>", "`");
    let s = replace_text(s, "</code>", "`");
    let s = replace_text(s, "<pre>", "```\n");
    let s = replace_text(s, "</pre>", "\n```\n");
    let s = replace_text(s, "<ul>", "");
    let s = replace_text(s, "</ul>", "\n");
    let s = replace_text(s, "<ol>", "");
    let s = replace_text(s, "</ol>", "\n");
    let s = replace_text(s, "<li>", "- ");
    let s = replace_text(s, "</li>", "\n");
    let s = replace_text(s, "<br>", "\n");
    let s = replace_text(s, "<br/>", "\n");
    let s = replace_text(s, "<br />", "\n");
    string_from_chars(s.as_slice())
}

/// Puts front matter before `body` and hard-wraps the whole where the
/// configuration asks for it, taking `today` for the date where the options
/// give none.
pub fn assemble_page(body: &str, config: &Config, args: &Args, today: &str) -> (r: String)
    ensures
        r@ == html_page(body@, *config, *args, today@),
{
    let mut out: Vec<char> = Vec::new();
    match &args.date {
        Some(d) => {
            push_full_front_matter(&mut out, config, &args.title, &args.author, d.as_str());
        },
        None => {
            push_full_front_matter(&mut out, config, &args.title, &args.author, today);
        },
    }
    push_str(&mut out, body);
    if str_equal(config.wrap.as_str(), "hard") {
        let folded = wrap_chars(out.as_slice(), config.width);
        string_from_chars(folded.as_slice())
    } else {
        string_from_chars(out.as_slice())
    }
}

/// Reduces sanitized HTML to a Markdown body. Fails with a regex error
/// exactly when one of the two patterns does not compile.
pub fn markdown_body(html: &str) -> (r: Result<String, C2mdError>)
    ensures
        r is Ok == html_body(html@) is Some,
        r is Ok ==> r->Ok_0@ == html_body(html@)->Some_0,
        r is Err ==> r->Err_0 is Regex,
{
    let replaced = replace_tags(html);
    let stripped = match replace_all(TAG_PATTERN, replaced.as_str(), "") {
        Ok(s) => s,
        Err(e) => {
            return Err(C2mdError::Regex(error_text(&e)));
        },
    };
    assert(""@ =~= Seq::<char>::empty()) by {
        reveal_strlit("");
    }
    match replace_all(BLANK_LINES_PATTERN, stripped.as_str(), "\n\n") {
        Ok(s) => Ok(s),
        Err(e) => Err(C2mdError::Regex(error_text(&e))),
    }
}

/// Converts sanitized HTML to Markdown: front matter as configured, then
/// the body, the whole hard-wrapped where the configuration asks for it.
/// The date of the front matter is the one the options give, or else the
/// day of the call. Fails with a regex error exactly when a pattern does
/// not compile.
pub fn html_to_markdown(html: &str, config: &Config, args: &Args) -> (r: Result<String, C2mdError>)
    ensures
        r is Ok == html_body(html@) is Some,
        r is Ok ==> exists|today: Seq<char>|
            Some(r->Ok_0@) == #[trigger] html_document(html@, *config, *args, today),
        r is Err ==> r->Err_0 is Regex,
{
    let date = notice_date(config, args);
    match markdown_body(html) {
        Ok(body) => {
            let page = assemble_page(body.as_str(), config, args, date.as_str());
            assert(Some(page@) == html_document(html@, *config, *args, date@));
            Ok(page)
        },
        Err(e) => Err(e),
    }
}

/// Converts the content of an HTML file to Markdown: the content is
/// sanitized, then reduced as `html_to_markdown` does.
pub fn convert_html(content: &str, config: &Config, args: &Args) -> (r: Result<String, C2mdError>)
    ensures
        r is Ok == html_body(cleaned_html(content@)) is Some,
        r is Ok ==> exists|today: Seq<char>|
            Some(r->Ok_0@) == #[trigger] html_document(
                cleaned_html(content@),
                *config,
                *args,
                today,
            ),
        r is Err ==> r->Err_0 is Regex,
{
    let clean_html = clean(content);
    html_to_markdown(clean_html.as_str(), config, args)
}

} // verus!
