//! Word, Excel and PowerPoint documents: notices in place of a conversion.

use vstd::prelude::*;
use crate::chars::string_from_chars;
use crate::cli::Args;
use crate::config::Config;
use crate::converter::notice::dated_notice;
use crate::converter::notice::notice_date;
use crate::converter::notice::write_dated_notice;
use crate::error::C2mdError;
use crate::chars::option_text;
use crate::chars::push_str;
use crate::converter::frontmatter::push_title_front_matter;
use crate::converter::frontmatter::title_front_matter;

verus! {

/// The opening of the an office document notice, up to the file's name.
pub const OFFICE_INTRO: &'static str = "# Office Document\n\n**Note**: Office document conversion requires external tools.\n\nTo enable Office conversion, install:\n- `libreoffice` (for headless conversion)\n- `pandoc` (for universal conversion)\n\n## File Information\n\n- **File**: ";

/// The close of the an office document notice, after the file's name.
pub const OFFICE_TAIL: &'static str = "\n- **Format**: Office Document\n";

/// The Markdown that stands for an office document, with `today` as the date where the
/// options give none.
pub open spec fn office_document(
    file_name: Seq<char>,
    config: Config,
    args: Args,
    today: Seq<char>,
) -> Seq<char> {
    dated_notice(config, args, today, OFFICE_INTRO@, file_name, OFFICE_TAIL@)
}

/// Writes the Markdown that stands for an office document named `file_name`, taking
/// `today` for the date where the options give none.
pub fn office_markdown(file_name: &str, config: &Config, args: &Args, today: &str) -> (r: String)
    ensures
        r@ == office_document(file_name@, *config, *args, today@),
{
    let out = write_dated_notice(config, args, today, OFFICE_INTRO, file_name, OFFICE_TAIL);
    string_from_chars(out.as_slice())
}

/// Stands in for the conversion of an office document named `file_name`: front matter
/// as configured, then a notice that names the tools the conversion needs
/// and the file. The date of the front matter is the one the options give,
/// or else the day of the call. Never fails.
pub fn convert_office(file_name: &str, config: &Config, args: &Args) -> (r: Result<
    String,
    C2mdError,
>)
    ensures
        r is Ok,
        exists|today: Seq<char>| r->Ok_0@ == office_document(file_name@, *config, *args, today),
{
    let date = notice_date(config, args);
    Ok(office_markdown(file_name, config, args, date.as_str()))
}

/// The opening of the spreadsheet notice, up to the file's name.
pub const EXCEL_INTRO: &'static str = "# Excel Spreadsheet\n\n**Note**: Excel conversion requires external tools.\n\nTo enable Excel conversion, install:\n- `libreoffice` (for headless conversion)\n- `pandoc` (for universal conversion)\n\n## File Information\n\n- **File**: ";

/// The close of the spreadsheet notice, after the file's name.
pub const EXCEL_TAIL: &'static str = "\n- **Format**: Excel Spreadsheet\n";

/// The Markdown that stands for a spreadsheet.
pub open spec fn excel_document(file_name: Seq<char>, config: Config, args: Args) -> Seq<char> {
    title_front_matter(config.wants_frontmatter(), option_text(args.title)) + EXCEL_INTRO@
        + file_name + EXCEL_TAIL@
}

/// Stands in for the conversion of a spreadsheet named `file_name`: front
/// matter with the title where one is given, then a notice that names the
/// tools the conversion needs and the file. Never fails.
pub fn convert_excel(file_name: &str, config: &Config, args: &Args) -> (r: Result<
    String,
    C2mdError,
>)
    ensures
        r is Ok,
        r->Ok_0@ == excel_document(file_name@, *config, *args),
{
    let mut out: Vec<char> = Vec::new();
    push_title_front_matter(&mut out, config, &args.title);
    let ghost front = out@;
    push_str(&mut out, EXCEL_INTRO);
    push_str(&mut out, file_name);
    push_str(&mut out, EXCEL_TAIL);
    assert(out@ =~= front + EXCEL_INTRO@ + file_name@ + EXCEL_TAIL@);
    Ok(string_from_chars(out.as_slice()))
}

/// The opening of the a presentation notice, up to the file's name.
pub const POWERPOINT_INTRO: &'static str = "# PowerPoint Presentation\n\n**Note**: PowerPoint conversion requires external tools.\n\nTo enable PowerPoint conversion, install:\n- `libreoffice` (for headless conversion)\n- `pandoc` (for universal conversion)\n\n## File Information\n\n- **File**: ";

/// The close of the a presentation notice, after the file's name.
pub const POWERPOINT_TAIL: &'static str = "\n- **Format**: PowerPoint Presentation\n";

/// The Markdown that stands for a presentation, with `today` as the date where the
/// options give none.
pub open spec fn powerpoint_document(
    file_name: Seq<char>,
    config: Config,
    args: Args,
    today: Seq<char>,
) -> Seq<char> {
    dated_notice(config, args, today, POWERPOINT_INTRO@, file_name, POWERPOINT_TAIL@)
}

/// Writes the Markdown that stands for a presentation named `file_name`, taking
/// `today` for the date where the options give none.
pub fn powerpoint_markdown(file_name: &str, config: &Config, args: &Args, today: &str) -> (r:
    String)
    ensures
        r@ == powerpoint_document(file_name@, *config, *args, today@),
{
    let out = write_dated_notice(config, args, today, POWERPOINT_INTRO, file_name, POWERPOINT_TAIL);
    string_from_chars(out.as_slice())
}

/// Stands in for the conversion of a presentation named `file_name`: front matter
/// as configured, then a notice that names the tools the conversion needs
/// and the file. The date of the front matter is the one the options give,
/// or else the day of the call. Never fails.
pub fn convert_powerpoint(file_name: &str, config: &Config, args: &Args) -> (r: Result<
    String,
    C2mdError,
>)
    ensures
        r is Ok,
        exists|today: Seq<char>| r->Ok_0@ == powerpoint_document(file_name@, *config, *args, today),
{
    let date = notice_date(config, args);
    Ok(powerpoint_markdown(file_name, config, args, date.as_str()))
}

} // verus!
