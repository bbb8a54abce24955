//! EPUB books: a notice in place of a conversion.

use vstd::prelude::*;
use crate::chars::string_from_chars;
use crate::cli::Args;
use crate::config::Config;
use crate::converter::notice::dated_notice;
use crate::converter::notice::notice_date;
use crate::converter::notice::write_dated_notice;
use crate::error::C2mdError;

verus! {

/// The opening of the an EPUB book notice, up to the file's name.
pub const EPUB_INTRO: &'static str = "# EPUB Book\n\n**Note**: EPUB conversion requires external tools.\n\nTo enable EPUB conversion, install:\n- `pandoc` (for universal conversion)\n- `calibre` (for EPUB processing)\n\n## File Information\n\n- **File**: ";

/// The close of the an EPUB book notice, after the file's name.
pub const EPUB_TAIL: &'static str = "\n- **Format**: EPUB Book\n";

/// The Markdown that stands for an EPUB book, with `today` as the date where the
/// options give none.
pub open spec fn epub_document(
    file_name: Seq<char>,
    config: Config,
    args: Args,
    today: Seq<char>,
) -> Seq<char> {
    dated_notice(config, args, today, EPUB_INTRO@, file_name, EPUB_TAIL@)
}

/// Writes the Markdown that stands for an EPUB book named `file_name`, taking
/// `today` for the date where the options give none.
pub fn epub_markdown(file_name: &str, config: &Config, args: &Args, today: &str) -> (r: String)
    ensures
        r@ == epub_document(file_name@, *config, *args, today@),
{
    let out = write_dated_notice(config, args, today, EPUB_INTRO, file_name, EPUB_TAIL);
    string_from_chars(out.as_slice())
}

/// Stands in for the conversion of an EPUB book named `file_name`: front matter
/// as configured, then a notice that names the tools the conversion needs
/// and the file. The date of the front matter is the one the options give,
/// or else the day of the call. Never fails.
pub fn convert_epub(file_name: &str, config: &Config, args: &Args) -> (r: Result<
    String,
    C2mdError,
>)
    ensures
        r is Ok,
        exists|today: Seq<char>| r->Ok_0@ == epub_document(file_name@, *config, *args, today),
{
    let date = notice_date(config, args);
    Ok(epub_markdown(file_name, config, args, date.as_str()))
}

} // verus!
