//! The notice that stands in for a format whose conversion needs tools
//! outside this library.

use vstd::prelude::*;
use crate::chars::option_text;
use crate::chars::push_str;
use crate::cli::Args;
use crate::config::Config;
use crate::converter::frontmatter::frontmatter_enabled;
use crate::converter::frontmatter::full_front_matter;
use crate::converter::frontmatter::push_full_front_matter;
use crate::converter::frontmatter::resolve_date;
use crate::converter::frontmatter::shown_date;

verus! {

/// A notice with full front matter: the introduction, the file's name,
/// and the closing lines.
pub open spec fn dated_notice(
    config: Config,
    args: Args,
    today: Seq<char>,
    intro: Seq<char>,
    file_name: Seq<char>,
    tail: Seq<char>,
) -> Seq<char> {
    full_front_matter(
        config.wants_frontmatter(),
        option_text(args.title),
        option_text(args.author),
        shown_date(option_text(args.date), today),
    ) + intro + file_name + tail
}

/// Writes a notice with full front matter, taking `today` for the date
/// where the options give none.
pub fn write_dated_notice(
    config: &Config,
    args: &Args,
    today: &str,
    intro: &str,
    file_name: &str,
    tail: &str,
) -> (out: Vec<char>)
    ensures
        out@ == dated_notice(*config, *args, today@, intro@, file_name@, tail@),
{
    let mut out: Vec<char> = Vec::new();
    match &args.date {
        Some(d) => {
            push_full_front_matter(&mut out, config, &args.title, &args.author, d.as_str());
        },
        None => {
            push_full_front_matter(&mut out, config, &args.title, &args.author, today);
        },
    }
    let ghost front = out@;
    push_str(&mut out, intro);
    push_str(&mut out, file_name);
    push_str(&mut out, tail);
    assert(out@ =~= front + intro@ + file_name@ + tail@);
    out
}

/// The date for a notice: the one the options give or else the day of the
/// call where front matter is written, and empty where it is not.
pub fn notice_date(config: &Config, args: &Args) -> (date: String)
    ensures
        config.wants_frontmatter() && args.date is Some ==> date@ == args.date->Some_0@,
{
    if frontmatter_enabled(config) {
        resolve_date(args)
    } else {
        String::new()
    }
}

} // verus!
