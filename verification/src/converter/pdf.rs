//! PDF documents: a notice in place of a conversion.

use vstd::prelude::*;
use crate::chars::option_text;
use crate::chars::push_str;
use crate::chars::string_from_chars;
use crate::cli::Args;
use crate::config::Config;
use crate::converter::frontmatter::full_front_matter;
use crate::converter::frontmatter::push_full_front_matter;
use crate::converter::frontmatter::shown_date;
use crate::converter::notice::notice_date;
use crate::error::C2mdError;
use crate::utils::file_size_text;
use crate::utils::format_file_size;

verus! {

/// The opening of the PDF notice.
pub const PDF_INTRO: &'static str = "# PDF Document\n\n**Note**: PDF conversion requires external tools like `pdftotext` or `pandoc`.\n\nTo enable PDF conversion, install:\n- `poppler-utils` (for pdftotext)\n- `pandoc` (for universal conversion)\n\n";

/// The remark on text recognition.
pub const PDF_OCR_NOTE: &'static str = "**OCR Note**: OCR functionality requires `tesseract` to be installed.\n\n";

/// The heading of the file information, up to the file's name.
pub const PDF_INFO: &'static str = "## File Information\n\n- **File**: ";

/// The format line that follows the file's name.
pub const PDF_TAIL: &'static str = "\n- **Format**: PDF\n";

/// Whether the run asks for text recognition.
pub open spec fn wants_ocr(config: Config, args: Args) -> bool {
    args.ocr || config.ocr.enabled
}

/// The line that shows the file's size, where it is known.
pub open spec fn size_line(size: Option<u64>) -> Seq<char> {
    match size {
        Some(bytes) => "- **Size**: "@ + file_size_text(bytes as nat) + seq!['\n'],
        None => Seq::empty(),
    }
}

/// The Markdown that stands for a PDF, with `today` as the date where the
/// options give none.
pub open spec fn pdf_document(
    file_name: Seq<char>,
    size: Option<u64>,
    config: Config,
    args: Args,
    today: Seq<char>,
) -> Seq<char> {
    full_front_matter(
        config.wants_frontmatter(),
        option_text(args.title),
        option_text(args.author),
        shown_date(option_text(args.date), today),
    ) + PDF_INTRO@ + (if wants_ocr(config, args) {
        PDF_OCR_NOTE@
    } else {
        Seq::empty()
    }) + PDF_INFO@ + file_name + PDF_TAIL@ + size_line(size)
}

/// Writes the Markdown that stands for the PDF named `file_name`, taking
/// `today` for the date where the options give none.
pub fn pdf_markdown(
    file_name: &str,
    size: Option<u64>,
    config: &Config,
    args: &Args,
    today: &str,
) -> (r: String)
    ensures
        r@ == pdf_document(file_name@, size, *config, *args, today@),
{
    let mut out: Vec<char> = Vec::new();
    match &args.date {
        Some(d) => {
            push_full_front_matter(&mut out, config, &args.title, &args.author, d.as_str());
        },
        None => {
            push_full_front_matter(&mut out, config, &args.title, &args.author, today);
        },
    }
    let ghost front = out@;
    push_str(&mut out, PDF_INTRO);
    if args.ocr || config.ocr.enabled {
        push_str(&mut out, PDF_OCR_NOTE);
    }
    push_str(&mut out, PDF_INFO);
    push_str(&mut out, file_name);
    push_str(&mut out, PDF_TAIL);
    match size {
        Some(bytes) => {
            push_str(&mut out, "- **Size**: ");
            let text = format_file_size(bytes);
            push_str(&mut out, text.as_str());
            out.push('\n');
        },
        None => {},
    }
    assert(out@ =~= front + PDF_INTRO@ + (if wants_ocr(*config, *args) {
        PDF_OCR_NOTE@
    } else {
        Seq::empty()
    }) + PDF_INFO@ + file_name@ + PDF_TAIL@ + size_line(size));
    string_from_chars(out.as_slice())
}

/// Stands in for the conversion of the PDF named `file_name`: front matter
/// as configured, a notice that names the tools the conversion needs, a
/// remark on text recognition where the run asks for it, and the file's
/// name, format and, where known, size. The date of the front matter is
/// the one the options give, or else the day of the call. Never fails.
pub fn convert_pdf(file_name: &str, size: Option<u64>, config: &Config, args: &Args) -> (r: Result<
    String,
    C2mdError,
>)
    ensures
        r is Ok,
        exists|today: Seq<char>|
            r->Ok_0@ == pdf_document(file_name@, size, *config, *args, today),
{
    let date = notice_date(config, args);
    Ok(pdf_markdown(file_name, size, config, args, date.as_str()))
}

} // verus!
