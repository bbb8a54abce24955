//! Routing: from a file's format to its converter, and the conversion of
//! one file from what was read of it to what is to be written.

use vstd::prelude::*;
use vstd::utf8::decode_utf8;
use vstd::utf8::valid_utf8;
use crate::chars::option_text;
use crate::chars::push_str;
use crate::chars::string_from_chars;
use crate::chars::to_chars;
use crate::cli::Args;
use crate::clock::now;
use crate::config::Config;
use crate::converter::csv::convert_csv;
use crate::converter::csv::csv_document;
use crate::converter::epub::epub_document;
use crate::converter::epub::epub_markdown;
use crate::converter::html::assemble_page;
use crate::converter::html::clean;
use crate::converter::html::cleaned_html;
use crate::converter::html::html_document;
use crate::converter::html::markdown_body;
use crate::converter::image::convert_image;
use crate::converter::image::extract_image_metadata;
use crate::converter::image::image_document;
use crate::converter::image::image_metadata;
use crate::converter::image::mode_named;
use crate::converter::image::ImageMetadata;
use crate::converter::image::ImageMetadataView;
use crate::converter::notice::notice_date;
use crate::converter::office::convert_excel;
use crate::converter::office::excel_document;
use crate::converter::office::office_document;
use crate::converter::office::office_markdown;
use crate::converter::office::powerpoint_document;
use crate::converter::office::powerpoint_markdown;
use crate::converter::pdf::pdf_document;
use crate::converter::pdf::pdf_markdown;
use crate::converter::rtf::rtf_document;
use crate::converter::rtf::rtf_markdown;
use crate::converter::text::text_document;
use crate::converter::text::text_markdown;
use crate::converter::Converter;
use crate::error::reports;
use crate::error::C2mdError;
use crate::error::Failure;
use crate::metadata::described;
use crate::metadata::extract_metadata;
use crate::metadata::DocumentMetadata;
use crate::metadata::MetadataView;
use crate::paths::file_name;
use crate::paths::path_file_name;
use crate::strings::decimal;
use crate::strings::push_decimal;
use crate::strings::str_equal;
use crate::strings::text_is;
use crate::template::create_template_context;
use crate::template::FileInfo;
use crate::template::TemplateContext;
use crate::template::DEFAULT_TEMPLATE;
use crate::utils::file_size_text;
use crate::utils::format_file_size;
use crate::utils::image_extension;
use crate::utils::is_image_extension;
use crate::utils::lowercase_extension;
use crate::utils::lowered_extension;
use crate::validator::check_failure;
use crate::validator::detected_format;
use crate::validator::read_text;
use crate::validator::validate_file;
use crate::validator::verdict;
use crate::validator::NOT_UTF8;

verus! {

/// The formats that have a converter.
#[derive(Debug, Clone, Copy, PartialEq, Eq)]
pub enum Format {
    Pdf,
    Office,
    Excel,
    PowerPoint,
    Rtf,
    Text,
    Html,
    Epub,
    Csv,
    Image,
}

/// What was found of a file when it was opened as an image.
pub struct ImageSource {
    /// How the Markdown refers to the image under the configured mode.
    pub reference: String,
    /// The recognized text, where recognition ran and succeeded.
    pub ocr_text: Option<String>,
    /// Width and height, where the image could be decoded.
    pub dimensions: Option<(u32, u32)>,
    /// The complaint of the decoder, where it could not.
    pub decode_error: Option<String>,
}

/// What was read of one input file.
pub struct Source {
    /// The path of the file.
    pub path: String,
    /// The bytes of the file.
    pub content: Vec<u8>,
    /// When the file was last modified, in seconds after the Unix epoch.
    pub modified: i64,
    /// What the file is as an image, where it was opened as one.
    pub image: Option<ImageSource>,
}

/// What is to be written for one input file.
pub struct Converted {
    /// Where the output goes; `-` stands for the standard output.
    pub output_path: String,
    /// The Markdown of the file.
    pub markdown: String,
    /// The name of the template to render the output with, where front
    /// matter is asked for.
    pub template: Option<String>,
    /// What the template is rendered with, where there is one.
    pub context: Option<TemplateContext>,
}

/// The format that a lowercase extension is routed to, if there is one.
pub open spec fn format_named(name: Seq<char>) -> Option<Format> {
    if name == "pdf"@ {
        Some(Format::Pdf)
    } else if name == "doc"@ || name == "docx"@ {
        Some(Format::Office)
    } else if name == "xls"@ || name == "xlsx"@ {
        Some(Format::Excel)
    } else if name == "ppt"@ || name == "pptx"@ {
        Some(Format::PowerPoint)
    } else if name == "rtf"@ {
        Some(Format::Rtf)
    } else if name == "txt"@ {
        Some(Format::Text)
    } else if name == "html"@ || name == "htm"@ {
        Some(Format::Html)
    } else if name == "epub"@ {
        Some(Format::Epub)
    } else if name == "csv"@ {
        Some(Format::Csv)
    } else if image_extension(name) {
        Some(Format::Image)
    } else {
        None
    }
}

/// The converter for a format given by its lowercase extension. Fails with
/// an unsupported-format error that names the format exactly when no
/// converter is registered for it.
pub fn converter_for(format: &str) -> (r: Result<Format, C2mdError>)
    ensures
        r is Ok == format_named(format@) is Some,
        r is Ok ==> Some(r->Ok_0) == format_named(format@),
        r is Err ==> reports(r->Err_0, Failure::Unsupported(format@)),
{
    let e = to_chars(format);
    let e = e.as_slice();
    if text_is(e, "pdf") {
        Ok(Format::Pdf)
    } else if text_is(e, "doc") || text_is(e, "docx") {
        Ok(Format::Office)
    } else if text_is(e, "xls") || text_is(e, "xlsx") {
        Ok(Format::Excel)
    } else if text_is(e, "ppt") || text_is(e, "pptx") {
        Ok(Format::PowerPoint)
    } else if text_is(e, "rtf") {
        Ok(Format::Rtf)
    } else if text_is(e, "txt") {
        Ok(Format::Text)
    } else if text_is(e, "html") || text_is(e, "htm") {
        Ok(Format::Html)
    } else if text_is(e, "epub") {
        Ok(Format::Epub)
    } else if text_is(e, "csv") {
        Ok(Format::Csv)
    } else if is_image_extension(format) {
        Ok(Format::Image)
    } else {
        Err(C2mdError::UnsupportedFormat(format.to_string()))
    }
}

/// The name under which a file is shown: the last component of its path,
/// or nothing where the path has none.
pub open spec fn shown_name(path: Seq<char>) -> Seq<char> {
    match path_file_name(path) {
        Some(name) => name,
        None => Seq::empty(),
    }
}

/// What is known of a source as an image file.
pub open spec fn image_facts(source: Source, image: ImageSource) -> Option<ImageMetadataView> {
    match image.dimensions {
        Some(size) => Some(
            image_metadata(source.path@, size.0, size.1, Some(source.content@.len() as u64)),
        ),
        None => None,
    }
}

/// The Markdown of a text-based format, or the failure to read the text.
pub open spec fn from_text(
    content: Seq<u8>,
    document: spec_fn(Seq<char>) -> Result<Seq<char>, Failure>,
) -> Result<Seq<char>, Failure> {
    if valid_utf8(content) {
        document(decode_utf8(content))
    } else {
        Err(Failure::Io(NOT_UTF8@))
    }
}

/// The Markdown that the converter for `format` makes of a source, with
/// `today` as the date where the options give none, or the failure that it
/// ends in.
pub open spec fn routed(
    format: Format,
    source: Source,
    config: Config,
    args: Args,
    today: Seq<char>,
) -> Result<Seq<char>, Failure> {
    let name = shown_name(source.path@);
    match format {
        Format::Pdf => Ok(
            pdf_document(name, Some(source.content@.len() as u64), config, args, today),
        ),
        Format::Office => Ok(office_document(name, config, args, today)),
        Format::Excel => Ok(excel_document(name, config, args)),
        Format::PowerPoint => Ok(powerpoint_document(name, config, args, today)),
        Format::Rtf => Ok(rtf_document(name, config, args, today)),
        Format::Epub => Ok(epub_document(name, config, args, today)),
        Format::Text => from_text(
            source.content@,
            |text: Seq<char>| Ok(text_document(text, config, args, today)),
        ),
        Format::Html => from_text(
            source.content@,
            |text: Seq<char>|
                match html_document(cleaned_html(text), config, args, today) {
                    Some(doc) => Ok(doc),
                    None => Err(Failure::Pattern),
                },
        ),
        Format::Csv => from_text(
            source.content@,
            |text: Seq<char>|
                match csv_document(text, config, args) {
                    Some(doc) => Ok(doc),
                    None => Err(Failure::Csv),
                },
        ),
        Format::Image => match source.image {
            Some(image) => if mode_named(config.images.mode@) is Some {
                Ok(
                    image_document(
                        name,
                        image.reference@,
                        option_text(image.ocr_text),
                        image_facts(source, image),
                        config,
                        args,
                    ),
                )
            } else {
                Err(Failure::ImageMode)
            },
            None => Err(Failure::ImageMissing),
        },
    }
}

/// Whether an outcome is the wanted one: the wanted Markdown, or an error
/// that reports the wanted failure.
pub open spec fn fulfils(r: Result<String, C2mdError>, wanted: Result<Seq<char>, Failure>) -> bool {
    match wanted {
        Ok(doc) => r is Ok && r->Ok_0@ == doc,
        Err(f) => r is Err && reports(r->Err_0, f),
    }
}

/// The complaint of the decoder about a source, if there is one.
pub open spec fn decode_complaint(source: Source) -> Option<Seq<char>> {
    match source.image {
        Some(image) => option_text(image.decode_error),
        None => None,
    }
}

/// The pairs of a key and a value that a template shows of the metadata:
/// one for each value that is known, then the size and the format.
pub open spec fn entries_of(m: MetadataView) -> Seq<(Seq<char>, Seq<char>)> {
    text_entry("title"@, m.title) + text_entry("author"@, m.author) + text_entry(
        "subject"@,
        m.subject,
    ) + text_entry("keywords"@, m.keywords) + text_entry("creator"@, m.creator) + text_entry(
        "producer"@,
        m.producer,
    ) + text_entry("language"@, m.language) + count_entry("pages"@, m.page_count) + count_entry(
        "words"@,
        m.word_count,
    ) + count_entry("characters"@, m.character_count) + seq![
        ("file_size"@, file_size_text(m.file_size as nat)),
        ("format"@, m.format),
    ]
}

/// The pair for a text that is known.
pub open spec fn text_entry(key: Seq<char>, value: Option<Seq<char>>) -> Seq<
    (Seq<char>, Seq<char>),
> {
    match value {
        Some(v) => seq![(key, v)],
        None => Seq::empty(),
    }
}

/// The pair for a count that is known.
pub open spec fn count_entry(key: Seq<char>, value: Option<u32>) -> Seq<(Seq<char>, Seq<char>)> {
    match value {
        Some(n) => seq![(key, decimal(n as nat))],
        None => Seq::empty(),
    }
}

/// The texts of pairs of strings.
pub open spec fn pair_views(pairs: Seq<(String, String)>) -> Seq<(Seq<char>, Seq<char>)> {
    Seq::new(pairs.len(), |i: int| (pairs[i].0@, pairs[i].1@))
}

/// Appends the pair for a text, if it is known.
fn push_text_entry(entries: &mut Vec<(String, String)>, key: &str, value: &Option<String>)
    ensures
        pair_views(final(entries)@) == pair_views(old(entries)@) + text_entry(
            key@,
            option_text(*value),
        ),
{
    match value {
        Some(v) => {
            entries.push((key.to_string(), v.clone()));
            assert(pair_views(entries@) =~= pair_views(old(entries)@) + seq![(key@, v@)]);
        },
        None => {
            assert(pair_views(entries@) =~= pair_views(old(entries)@) + Seq::<
                (Seq<char>, Seq<char>),
            >::empty());
        },
    }
}

/// Appends the pair for a count, if it is known.
fn push_count_entry(entries: &mut Vec<(String, String)>, key: &str, value: Option<u32>)
    ensures
        pair_views(final(entries)@) == pair_views(old(entries)@) + count_entry(key@, value),
{
    match value {
        Some(n) => {
            let mut text: Vec<char> = Vec::new();
            push_decimal(&mut text, n as u64);
            assert(text@ =~= decimal(n as nat));
            entries.push((key.to_string(), string_from_chars(text.as_slice())));
            assert(pair_views(entries@) =~= pair_views(old(entries)@) + seq![
                (key@, decimal(n as nat)),
            ]);
        },
        None => {
            assert(pair_views(entries@) =~= pair_views(old(entries)@) + Seq::<
                (Seq<char>, Seq<char>),
            >::empty());
        },
    }
}

impl Converter {
    /// The format of the file at `path`, told by its extension in lower
    /// case. Fails with a generic error exactly when the path has none.
    pub fn detect_format(&self, path: &str) -> (r: Result<String, C2mdError>)
        ensures
            r is Ok == lowered_extension(path@) is Some,
            r is Ok ==> Some(r->Ok_0@) == lowered_extension(path@),
            r is Err ==> reports(r->Err_0, Failure::NoExtension),
    {
        match lowercase_extension(path) {
            Some(ext) => Ok(ext),
            None => Err(C2mdError::Generic("Cannot detect file format".to_string())),
        }
    }

    /// The name of the template that outputs are rendered with.
    pub fn get_template_name(&self) -> (name: String)
        ensures
            name@ == DEFAULT_TEMPLATE@,
    {
        DEFAULT_TEMPLATE.to_string()
    }

    /// The metadata as pairs of a key and a value, for a template to show:
    /// one pair for each value that is known, in a fixed order, then the
    /// size and the format. No key occurs twice.
    pub fn metadata_entries(&self, metadata: &DocumentMetadata) -> (entries: Vec<(String, String)>)
        ensures
            pair_views(entries@) == entries_of(metadata@),
    {
        let mut entries: Vec<(String, String)> = Vec::new();
        assert(pair_views(entries@) =~= Seq::<(Seq<char>, Seq<char>)>::empty());
        push_text_entry(&mut entries, "title", &metadata.title);
        push_text_entry(&mut entries, "author", &metadata.author);
        push_text_entry(&mut entries, "subject", &metadata.subject);
        push_text_entry(&mut entries, "keywords", &metadata.keywords);
        push_text_entry(&mut entries, "creator", &metadata.creator);
        push_text_entry(&mut entries, "producer", &metadata.producer);
        push_text_entry(&mut entries, "language", &metadata.language);
        push_count_entry(&mut entries, "pages", metadata.page_count);
        push_count_entry(&mut entries, "words", metadata.word_count);
        push_count_entry(&mut entries, "characters", metadata.character_count);
        let ghost counted = pair_views(entries@);
        entries.push(("file_size".to_string(), format_file_size(metadata.file_size)));
        entries.push(("format".to_string(), metadata.format.clone()));
        assert(pair_views(entries@) =~= counted + seq![
            ("file_size"@, file_size_text(metadata.file_size as nat)),
            ("format"@, metadata.format@),
        ]);
        assert(pair_views(entries@) =~= entries_of(metadata@));
        entries
    }

    /// What a template shows of the file that was checked: its name, size
    /// and format, and `modified` as the time to show.
    pub fn file_info_to_template_info(
        &self,
        file_info: &crate::validator::FileInfo,
        modified: String,
    ) -> (info: FileInfo)
        ensures
            info.name@ == shown_name(file_info.path@),
            info.size == file_info.size,
            info.format@ == file_info.format@,
            info.modified == modified,
    {
        let name = match file_name(file_info.path.as_str()) {
            Some(name) => name,
            None => String::new(),
        };
        FileInfo { name, size: file_info.size, format: file_info.format.clone(), modified }
    }

    /// Converts a source with the converter for `format`, taking `today`
    /// for the date where the options give none. The outcome is the
    /// Markdown of that converter, or its failure: an I/O error where a
    /// text format is not valid UTF-8, a regex or CSV error from the HTML
    /// and CSV converters, and for an image a generic error on an unknown
    /// image mode and an image error where nothing is known of the image.
    pub fn convert_by_format(&self, format: Format, source: &Source, today: &str) -> (r: Result<
        String,
        C2mdError,
    >)
        ensures
            fulfils(r, routed(format, *source, self.config, self.args, today@)),
    {
        let name = match file_name(source.path.as_str()) {
            Some(name) => name,
            None => String::new(),
        };
        let name = name.as_str();
        let config = &self.config;
        let args = &self.args;
        match format {
            Format::Pdf => Ok(
                pdf_markdown(name, Some(source.content.len() as u64), config, args, today),
            ),
            Format::Office => Ok(office_markdown(name, config, args, today)),
            Format::Excel => convert_excel(name, config, args),
            Format::PowerPoint => Ok(powerpoint_markdown(name, config, args, today)),
            Format::Rtf => Ok(rtf_markdown(name, config, args, today)),
            Format::Epub => Ok(epub_markdown(name, config, args, today)),
            Format::Text => match read_text(source.content.as_slice()) {
                Ok(text) => Ok(text_markdown(text.as_str(), config, args, today)),
                Err(e) => Err(e),
            },
            Format::Html => match read_text(source.content.as_slice()) {
                Ok(text) => {
                    let html = clean(text.as_str());
                    match markdown_body(html.as_str()) {
                        Ok(body) => Ok(assemble_page(body.as_str(), config, args, today)),
                        Err(e) => Err(e),
                    }
                },
                Err(e) => Err(e),
            },
            Format::Csv => match read_text(source.content.as_slice()) {
                Ok(text) => convert_csv(text.as_str(), config, args),
                Err(e) => Err(e),
            },
            Format::Image => match &source.image {
                Some(image) => {
                    let facts: Option<ImageMetadata> = match image.dimensions {
                        Some(size) => Some(
                            extract_image_metadata(
                                source.path.as_str(),
                                size.0,
                                size.1,
                                Some(source.content.len() as u64),
                            ),
                        ),
                        None => None,
                    };
                    convert_image(
                        name,
                        image.reference.as_str(),
                        &image.ocr_text,
                        &facts,
                        config,
                        args,
                    )
                },
                None => Err(C2mdError::Image("Nothing is known of the image".to_string())),
            },
        }
    }
}

/// The outcome of a batch: one outcome for each source, in the order of the
/// sources, and the number of failures among them.
pub struct BatchReport {
    pub outcomes: Vec<Result<Converted, C2mdError>>,
    pub failures: usize,
}

impl BatchReport {
    /// Whether every source of the batch failed, and there was one.
    pub fn all_failed(&self) -> (b: bool)
        ensures
            b == (self.outcomes@.len() > 0 && self.failures == self.outcomes@.len()),
    {
        self.outcomes.len() > 0 && self.failures == self.outcomes.len()
    }

    /// The result of the batch as a whole. Failures of single files are
    /// counted and reported, and never make the batch fail.
    pub fn result(&self) -> (r: Result<(), C2mdError>)
        ensures
            r is Ok,
    {
        Ok(())
    }
}

impl Converter {
    /// Where the output of a source goes and what its Markdown is, with
    /// `today` as the date where the options give none; or the failure
    /// that its conversion ends in. The steps, in order: the destination
    /// is decided, the file is checked and must be sound, its metadata
    /// are gathered, its format is told by its extension and routed to
    /// its converter.
    pub open spec fn single_file(self, source: Source, today: Seq<char>) -> Result<
        (Seq<char>, Seq<char>),
        Failure,
    > {
        let path = source.path@;
        let content = source.content@;
        if self.destination_of(path) is None {
            Err(Failure::InvalidFileName)
        } else if check_failure(path, content, decode_complaint(source)) is Some {
            Err(check_failure(path, content, decode_complaint(source))->Some_0)
        } else if verdict(
            detected_format(path, content)->Some_0,
            content,
            decode_complaint(source),
        ) is Unsound {
            Err(
                Failure::InvalidFile(
                    verdict(
                        detected_format(path, content)->Some_0,
                        content,
                        decode_complaint(source),
                    )->Unsound_0,
                ),
            )
        } else if described(path, content, source.modified) is None {
            Err(Failure::Io(NOT_UTF8@))
        } else if lowered_extension(path) is None {
            Err(Failure::NoExtension)
        } else if format_named(lowered_extension(path)->Some_0) is None {
            Err(Failure::Unsupported(lowered_extension(path)->Some_0))
        } else {
            match routed(
                format_named(lowered_extension(path)->Some_0)->Some_0,
                source,
                self.config,
                self.args,
                today,
            ) {
                Ok(markdown) => Ok((self.destination_of(path)->Some_0, markdown)),
                Err(f) => Err(f),
            }
        }
    }

    /// Whether the options ask for a template.
    pub open spec fn wants_template(self) -> bool {
        self.args.frontmatter@ != "none"@
    }

    /// Whether `converted` carries what a template needs, where one is
    /// asked for, and nothing of it where none is.
    pub open spec fn templated(self, source: Source, converted: Converted) -> bool {
        if self.wants_template() {
            &&& converted.template is Some
            &&& converted.template->Some_0@ == DEFAULT_TEMPLATE@
            &&& converted.context is Some
            &&& converted.context->Some_0.title == self.args.title
            &&& converted.context->Some_0.author == self.args.author
            &&& converted.context->Some_0.date == self.args.date
            &&& converted.context->Some_0.content@ == converted.markdown@
            &&& converted.context->Some_0.metadata is Some
            &&& Some(pair_views(converted.context->Some_0.metadata->Some_0@)) == match described(
                source.path@,
                source.content@,
                source.modified,
            ) {
                Some(m) => Some(entries_of(m)),
                None => None,
            }
            &&& converted.context->Some_0.file_info is Some
            &&& converted.context->Some_0.file_info->Some_0.name@ == shown_name(source.path@)
            &&& converted.context->Some_0.file_info->Some_0.size == source.content@.len()
            &&& Some(converted.context->Some_0.file_info->Some_0.format@) == detected_format(
                source.path@,
                source.content@,
            )
        } else {
            converted.template is None && converted.context is None
        }
    }

    /// Whether `r` is the outcome of converting `source` on the day
    /// `today`.
    pub open spec fn converts(self, source: Source, today: Seq<char>, r: Result<
        Converted,
        C2mdError,
    >) -> bool {
        match self.single_file(source, today) {
            Ok(written) => r is Ok && r->Ok_0.output_path@ == written.0 && r->Ok_0.markdown@
                == written.1 && self.templated(source, r->Ok_0),
            Err(f) => r is Err && reports(r->Err_0, f),
        }
    }

    /// Whether `r` is the outcome of converting `source` on some day.
    pub open spec fn converted(self, source: Source, r: Result<Converted, C2mdError>) -> bool {
        exists|today: Seq<char>| self.converts(source, today, r)
    }

    /// Converts one source, taking `today` for the date where the options
    /// give none and `now` for the time a template shows. The outcome says
    /// where the output goes, what its Markdown is and, where the options
    /// ask for front matter, which template to render it with and what
    /// with; or it is the error of the first step that fails.
    pub fn convert_single_file_at(&self, source: &Source, today: &str, now: String) -> (r: Result<
        Converted,
        C2mdError,
    >)
        ensures
            self.converts(*source, today@, r),
            r is Ok && self.wants_template() ==> r->Ok_0.context->Some_0.file_info->Some_0.modified
                == now,
    {
        let path = source.path.as_str();
        let content = source.content.as_slice();
        let output_path = match self.determine_output_path(path) {
            Ok(output_path) => output_path,
            Err(e) => {
                return Err(e);
            },
        };
        let no_complaint: Option<String> = None;
        let complaint: &Option<String> = match &source.image {
            Some(image) => &image.decode_error,
            None => &no_complaint,
        };
        let file_info = match validate_file(path, content, complaint) {
            Ok(file_info) => file_info,
            Err(e) => {
                return Err(e);
            },
        };
        if !file_info.is_valid {
            let mut message: Vec<char> = Vec::new();
            push_str(&mut message, "Invalid file: ");
            match &file_info.error {
                Some(reason) => {
                    push_str(&mut message, reason.as_str());
                },
                None => {
                    push_str(&mut message, "Unknown error");
                },
            }
            return Err(C2mdError::Generic(string_from_chars(message.as_slice())));
        }
        let metadata = match extract_metadata(path, content, source.modified) {
            Ok(metadata) => metadata,
            Err(e) => {
                return Err(e);
            },
        };
        let format = match self.detect_format(path) {
            Ok(format) => format,
            Err(e) => {
                return Err(e);
            },
        };
        let kind = match converter_for(format.as_str()) {
            Ok(kind) => kind,
            Err(e) => {
                return Err(e);
            },
        };
        let markdown = match self.convert_by_format(kind, source, today) {
            Ok(markdown) => markdown,
            Err(e) => {
                return Err(e);
            },
        };
        if !str_equal(self.args.frontmatter.as_str(), "none") {
            let context = create_template_context(
                self.args.title.clone(),
                self.args.author.clone(),
                self.args.date.clone(),
                markdown.clone(),
                Some(self.metadata_entries(&metadata)),
                Some(self.file_info_to_template_info(&file_info, now)),
            );
            Ok(
                Converted {
                    output_path,
                    markdown,
                    template: Some(self.get_template_name()),
                    context: Some(context),
                },
            )
        } else {
            Ok(Converted { output_path, markdown, template: None, context: None })
        }
    }

    /// Converts one source: decides where its output goes, checks the
    /// file, gathers its metadata, tells its format by its extension and
    /// hands it to the converter for that format. The clock is read for
    /// the date of the front matter where the options give none, and for
    /// the time a template shows; nothing else of the outcome depends on
    /// when the call is made. A failure of one step ends the conversion
    /// with that step's error.
    pub fn convert_single_file(&self, source: &Source) -> (r: Result<Converted, C2mdError>)
        ensures
            self.converted(*source, r),
    {
        let today = notice_date(&self.config, &self.args);
        let shown = if str_equal(self.args.frontmatter.as_str(), "none") {
            String::new()
        } else {
            now()
        };
        let r = self.convert_single_file_at(source, today.as_str(), shown);
        assert(self.converts(*source, today@, r));
        r
    }

    /// Converts every source, one after the other. The report holds one
    /// outcome for each source, in the order of the sources: a failure
    /// neither stops the batch nor changes the outcome of another source.
    /// It also counts the failures.
    pub fn batch_convert(&self, sources: &Vec<Source>) -> (report: BatchReport)
        ensures
            report.outcomes@.len() == sources@.len(),
            forall|i: int|
                0 <= i < sources@.len() ==> self.converted(
                    sources@[i],
                    #[trigger] report.outcomes@[i],
                ),
            report.failures == crate::converter::failures(report.outcomes@),
    {
        let mut outcomes: Vec<Result<Converted, C2mdError>> = Vec::new();
        let mut i: usize = 0;
        while i < sources.len()
            invariant
                i <= sources.len(),
                outcomes@.len() == i,
                forall|k: int|
                    0 <= k < i ==> self.converted(sources@[k], #[trigger] outcomes@[k]),
            decreases sources.len() - i,
        {
            let ghost before = outcomes@;
            let outcome = self.convert_single_file(&sources[i]);
            outcomes.push(outcome);
            assert forall|k: int| 0 <= k < i + 1 implies self.converted(
                sources@[k],
                #[trigger] outcomes@[k],
            ) by {
                if k < i {
                    assert(outcomes@[k] == before[k]);
                }
            }
            i += 1;
        }
        let failures = crate::converter::count_failures(&outcomes);
        BatchReport { outcomes, failures }
    }
}

} // verus!
