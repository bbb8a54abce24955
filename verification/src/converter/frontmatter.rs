//! The front matter that opens a converted document.

use vstd::prelude::*;
use crate::chars::option_text;
use crate::chars::push_str;
use crate::cli::Args;
use crate::clock::today;
use crate::config::Config;
use crate::strings::str_equal;

verus! {

/// One line of front matter for a value that is given; nothing for one
/// that is not.
pub open spec fn meta_line(key: Seq<char>, value: Option<Seq<char>>) -> Seq<char> {
    match value {
        Some(v) => key + v + seq!['\n'],
        None => Seq::empty(),
    }
}

/// Front matter that holds at most a title.
pub open spec fn title_front_matter(enabled: bool, title: Option<Seq<char>>) -> Seq<char> {
    if enabled {
        "---\n"@ + meta_line("title: "@, title) + "---\n\n"@
    } else {
        Seq::empty()
    }
}

/// Front matter with title and author where they are given, and a date.
pub open spec fn full_front_matter(
    enabled: bool,
    title: Option<Seq<char>>,
    author: Option<Seq<char>>,
    date: Seq<char>,
) -> Seq<char> {
    if enabled {
        "---\n"@ + meta_line("title: "@, title) + meta_line("author: "@, author) + meta_line(
            "date: "@,
            Some(date),
        ) + "---\n\n"@
    } else {
        Seq::empty()
    }
}

/// The date that front matter shows: the one given, or else today's.
pub open spec fn shown_date(given: Option<Seq<char>>, today: Seq<char>) -> Seq<char> {
    match given {
        Some(d) => d,
        None => today,
    }
}

/// Whether the run writes front matter.
pub fn frontmatter_enabled(config: &Config) -> (b: bool)
    ensures
        b == config.wants_frontmatter(),
{
    !str_equal(config.frontmatter.as_str(), "none")
}

/// Appends one line of front matter, if the value is given.
pub fn push_meta_line(out: &mut Vec<char>, key: &str, value: &Option<String>)
    ensures
        final(out)@ == old(out)@ + meta_line(key@, option_text(*value)),
{
    match value {
        Some(v) => {
            push_str(out, key);
            push_str(out, v.as_str());
            out.push('\n');
            assert(out@ =~= old(out)@ + (key@ + v@ + seq!['\n']));
        },
        None => {
            assert(out@ =~= old(out)@ + Seq::<char>::empty());
        },
    }
}

/// Appends front matter that holds at most a title.
pub fn push_title_front_matter(out: &mut Vec<char>, config: &Config, title: &Option<String>)
    ensures
        final(out)@ == old(out)@ + title_front_matter(
            config.wants_frontmatter(),
            option_text(*title),
        ),
{
    if frontmatter_enabled(config) {
        push_str(out, "---\n");
        push_meta_line(out, "title: ", title);
        push_str(out, "---\n\n");
        assert(out@ =~= old(out)@ + ("---\n"@ + meta_line("title: "@, option_text(*title))
            + "---\n\n"@));
    } else {
        assert(out@ =~= old(out)@ + Seq::<char>::empty());
    }
}

/// Appends front matter with the given title and author and with `date`.
pub fn push_full_front_matter(
    out: &mut Vec<char>,
    config: &Config,
    title: &Option<String>,
    author: &Option<String>,
    date: &str,
)
    ensures
        final(out)@ == old(out)@ + full_front_matter(
            config.wants_frontmatter(),
            option_text(*title),
            option_text(*author),
            date@,
        ),
{
    if frontmatter_enabled(config) {
        push_str(out, "---\n");
        push_meta_line(out, "title: ", title);
        push_meta_line(out, "author: ", author);
        push_str(out, "date: ");
        push_str(out, date);
        out.push('\n');
        push_str(out, "---\n\n");
        assert(out@ =~= old(out)@ + ("---\n"@ + meta_line("title: "@, option_text(*title))
            + meta_line("author: "@, option_text(*author)) + meta_line("date: "@, Some(date@))
            + "---\n\n"@));
    } else {
        assert(out@ =~= old(out)@ + Seq::<char>::empty());
    }
}

/// The date to show: the one the options give, or else today's. The clock
/// is read only where the options give none.
pub fn resolve_date(args: &Args) -> (date: String)
    ensures
        args.date is Some ==> date@ == args.date->Some_0@,
{
    match &args.date {
        Some(d) => d.clone(),
        None => today(),
    }
}

} // verus!
