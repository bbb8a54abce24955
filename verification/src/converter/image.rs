//! Images: a reference to the image, recognized text where there is any,
//! and what is known of the file.

use vstd::prelude::*;
use crate::chars::option_text;
use crate::chars::push_str;
use crate::chars::string_from_chars;
use crate::chars::to_chars;
use crate::chars::to_uppercase;
use crate::chars::uppercase_of;
use crate::cli::Args;
use crate::config::Config;
use crate::converter::frontmatter::push_title_front_matter;
use crate::converter::frontmatter::title_front_matter;
use crate::error::C2mdError;
use crate::paths::extension;
use crate::paths::file_stem;
use crate::paths::join;
use crate::paths::path_extension;
use crate::paths::path_file_stem;
use crate::paths::path_join;
use crate::pattern::regex_compiles;
use crate::pattern::regex_replaced;
use crate::pattern::replace_all;
use crate::strings::decimal;
use crate::strings::is_blank;
use crate::strings::push_decimal;
use crate::strings::skip_whitespace_from;
use crate::strings::str_equal;
use crate::utils::file_size_text;
use crate::utils::format_file_size;

verus! {

/// The standard base64 text of a byte sequence, with padding, as the
/// `base64` crate encodes it.
pub uninterp spec fn base64_of(data: Seq<u8>) -> Seq<char>;

/// The media type that `mime_guess` finds for a path by its extension, or
/// `application/octet-stream` where it finds none.
pub uninterp spec fn mime_of_path(path: Seq<char>) -> Seq<char>;

/// The longest input that the encoder takes: beyond it the length of the
/// encoded text does not fit the machine's integers.
pub open spec fn encodable(len: nat) -> bool {
    len < usize::MAX / 4 * 3
}

/// Calls `Engine::encode` on `base64::engine::general_purpose::STANDARD`.
/// The result is the crate's encoding of the bytes. The crate panics where
/// the encoded length overflows, so such inputs are left out.
#[verifier::external_body]
pub(crate) fn encode_base64(data: &[u8]) -> (r: String)
    requires
        encodable(data@.len()),
    ensures
        r@ == base64_of(data@),
{
    base64::Engine::encode(&base64::engine::general_purpose::STANDARD, data)
}

/// Calls `mime_guess::from_path` and `MimeGuess::first_or_octet_stream`.
/// The result is the text of the media type the crate guesses for the
/// path, or of `application/octet-stream` where it has no guess.
#[verifier::external_body]
pub(crate) fn guess_mime(path: &str) -> (r: String)
    ensures
        r@ == mime_of_path(path@),
{
    mime_guess::from_path(path).first_or_octet_stream().to_string()
}

/// How the image is referred to.
#[derive(Debug, Clone, Copy, PartialEq, Eq)]
pub enum ImageMode {
    /// The image stays where it is.
    Keep,
    /// The image is copied to the assets directory.
    Download,
    /// The image is embedded as a data URI.
    Inline,
}

/// What is known of an image file.
#[derive(Debug, Clone)]
pub struct ImageMetadata {
    pub format: String,
    pub width: u32,
    pub height: u32,
    pub file_size: Option<u64>,
}

/// The mathematical value of what is known of an image file.
pub struct ImageMetadataView {
    pub format: Seq<char>,
    pub width: u32,
    pub height: u32,
    pub file_size: Option<u64>,
}

impl View for ImageMetadata {
    type V = ImageMetadataView;

    open spec fn view(&self) -> ImageMetadataView {
        ImageMetadataView {
            format: self.format@,
            width: self.width,
            height: self.height,
            file_size: self.file_size,
        }
    }
}

/// The value of optional metadata, if there is any.
pub open spec fn option_metadata(m: Option<ImageMetadata>) -> Option<ImageMetadataView> {
    match m {
        Some(m) => Some(m@),
        None => None,
    }
}

/// The image mode that a configured name stands for, if it is one.
pub open spec fn mode_named(name: Seq<char>) -> Option<ImageMode> {
    if name == "keep"@ {
        Some(ImageMode::Keep)
    } else if name == "download"@ {
        Some(ImageMode::Download)
    } else if name == "inline"@ {
        Some(ImageMode::Inline)
    } else {
        None
    }
}

/// The configured image mode. Fails with a generic error exactly when the
/// configured name is none of `keep`, `download` and `inline`.
pub fn image_mode(config: &Config) -> (r: Result<ImageMode, C2mdError>)
    ensures
        r is Ok == mode_named(config.images.mode@) is Some,
        r is Ok ==> Some(r->Ok_0) == mode_named(config.images.mode@),
        r is Err ==> r->Err_0 is Generic && r->Err_0->Generic_0@ == "Invalid image mode"@,
{
    let mode = config.images.mode.as_str();
    if str_equal(mode, "keep") {
        Ok(ImageMode::Keep)
    } else if str_equal(mode, "download") {
        Ok(ImageMode::Download)
    } else if str_equal(mode, "inline") {
        Ok(ImageMode::Inline)
    } else {
        Err(C2mdError::Generic("Invalid image mode".to_string()))
    }
}

/// The directory that receives copied images: the one the options name,
/// or else the configured one.
pub open spec fn assets_directory(config: Config, args: Args) -> Seq<char> {
    match args.assets_dir {
        Some(dir) => dir@,
        None => config.images.assets_dir@,
    }
}

/// The extension a copied image gets: its own, or `png` where it has none.
pub open spec fn asset_extension(path: Seq<char>) -> Seq<char> {
    match path_extension(path) {
        Some(ext) => ext,
        None => "png"@,
    }
}

/// Where a copy of the image goes: into the assets directory, under the
/// image's stem and extension; `None` where the path has no stem.
pub open spec fn asset_destination(path: Seq<char>, config: Config, args: Args) -> Option<
    Seq<char>,
> {
    match path_file_stem(path) {
        Some(stem) => Some(
            path_join(assets_directory(config, args), stem + seq!['.'] + asset_extension(path)),
        ),
        None => None,
    }
}

/// Where a copy of the image at `path` goes. Fails with a generic error
/// exactly when the path has no file stem.
pub fn asset_path(path: &str, config: &Config, args: &Args) -> (r: Result<String, C2mdError>)
    ensures
        r is Ok == asset_destination(path@, *config, *args) is Some,
        r is Ok ==> Some(r->Ok_0@) == asset_destination(path@, *config, *args),
        r is Err ==> r->Err_0 is Generic && r->Err_0->Generic_0@ == "Invalid file name"@,
{
    let stem = match file_stem(path) {
        Some(stem) => stem,
        None => {
            return Err(C2mdError::Generic("Invalid file name".to_string()));
        },
    };
    let mut name: Vec<char> = Vec::new();
    push_str(&mut name, stem.as_str());
    name.push('.');
    match extension(path) {
        Some(ext) => {
            push_str(&mut name, ext.as_str());
        },
        None => {
            push_str(&mut name, "png");
        },
    }
    assert(name@ =~= stem@ + seq!['.'] + asset_extension(path@));
    let name = string_from_chars(name.as_slice());
    match &args.assets_dir {
        Some(dir) => Ok(join(dir.as_str(), name.as_str())),
        None => Ok(join(config.images.assets_dir.as_str(), name.as_str())),
    }
}

/// The data URI of an image: its media type and its bytes in base64.
pub open spec fn data_uri_text(path: Seq<char>, data: Seq<u8>) -> Seq<char> {
    "data:"@ + mime_of_path(path) + ";base64,"@ + base64_of(data)
}

/// The data URI that embeds the bytes of the image at `path`. Fails with
/// an image error exactly when the bytes are too many to encode.
pub fn inline_image(path: &str, data: &[u8]) -> (r: Result<String, C2mdError>)
    ensures
        r is Ok == encodable(data@.len()),
        r is Ok ==> r->Ok_0@ == data_uri_text(path@, data@),
        r is Err ==> r->Err_0 is Image,
{
    if data.len() >= usize::MAX / 4 * 3 {
        return Err(C2mdError::Image("Image too large to embed".to_string()));
    }
    let mime = guess_mime(path);
    let encoded = encode_base64(data);
    let mut out: Vec<char> = Vec::new();
    push_str(&mut out, "data:");
    push_str(&mut out, mime.as_str());
    push_str(&mut out, ";base64,");
    push_str(&mut out, encoded.as_str());
    assert(out@ =~= data_uri_text(path@, data@));
    Ok(string_from_chars(out.as_slice()))
}

/// The pattern of two or more blank lines in a row.
pub const BLANK_LINES_PATTERN: &'static str = "\\n\\s*\\n\\s*\\n";

/// The pattern of a lowercase letter directly followed by a capital.
pub const JOINED_WORDS_PATTERN: &'static str = "([a-z])([A-Z])";

/// The pattern of a text that is nothing but a number.
pub const PAGE_NUMBER_PATTERN: &'static str = "^\\s*\\d+\\s*$";

/// `text` with the matches of `pattern` replaced, or `text` itself where
/// the pattern does not compile.
pub open spec fn replaced_if_compiles(
    pattern: Seq<char>,
    text: Seq<char>,
    replacement: Seq<char>,
) -> Seq<char> {
    if regex_compiles(pattern) {
        regex_replaced(pattern, text, replacement)
    } else {
        text
    }
}

/// Recognized text after cleaning: runs of blank lines reduced to one, a
/// space put between a lowercase letter and a capital that follows it, and
/// a text that is only a number removed.
pub open spec fn cleaned_ocr_text(text: Seq<char>) -> Seq<char> {
    replaced_if_compiles(
        PAGE_NUMBER_PATTERN@,
        replaced_if_compiles(
            JOINED_WORDS_PATTERN@,
            replaced_if_compiles(BLANK_LINES_PATTERN@, text, "\n\n"@),
            "$1 $2"@,
        ),
        ""@,
    )
}

/// Replaces the matches of `pattern` in `text`; a pattern that does not
/// compile leaves the text as it is.
fn replace_if_compiles(pattern: &str, text: String, replacement: &str) -> (r: String)
    ensures
        r@ == replaced_if_compiles(pattern@, text@, replacement@),
{
    match replace_all(pattern, text.as_str(), replacement) {
        Ok(s) => s,
        Err(_) => text,
    }
}

/// Cleans recognized text.
pub fn clean_ocr_text(text: &str) -> (r: String)
    ensures
        r@ == cleaned_ocr_text(text@),
{
    let cleaned = replace_if_compiles(BLANK_LINES_PATTERN, text.to_string(), "\n\n");
    let cleaned = replace_if_compiles(JOINED_WORDS_PATTERN, cleaned, "$1 $2");
    replace_if_compiles(PAGE_NUMBER_PATTERN, cleaned, "")
}

/// The size an image is scaled down to so that it is no wider than
/// `max_width`, keeping its proportions; `None` where it is narrow enough.
pub open spec fn resized(width: u32, height: u32, max_width: usize) -> Option<(u32, u32)> {
    if width as int > max_width as int {
        Some((max_width as u32, ((height as int * max_width as int) / (width as int)) as u32))
    } else {
        None
    }
}

/// The size to scale an image of `width` by `height` down to so that it is
/// no wider than `max_width`, or `None` where it is narrow enough already.
/// The new height keeps the proportions, rounded down.
pub fn resize_image(width: u32, height: u32, max_width: usize) -> (r: Option<(u32, u32)>)
    ensures
        r == resized(width, height, max_width),
        r is Some ==> r->Some_0.0 == max_width && r->Some_0.1 <= height,
{
    if max_width < 0xFFFF_FFFF && (max_width as u32) < width {
        assert((height as u64) * (max_width as u64) <= 0xFFFF_FFFF * 0xFFFF_FFFF)
            by (nonlinear_arith)
            requires
                height <= 0xFFFF_FFFF,
                max_width <= 0xFFFF_FFFF,
        ;
        let scaled: u64 = (height as u64) * (max_width as u64);
        assert(scaled <= (height as u64) * (width as u64)) by (nonlinear_arith)
            requires
                scaled == (height as u64) * (max_width as u64),
                max_width < width,
        ;
        let new_height: u64 = scaled / (width as u64);
        assert(new_height <= height) by (nonlinear_arith)
            requires
                new_height == scaled / (width as u64),
                scaled <= (height as u64) * (width as u64),
                width > 0,
        ;
        Some((max_width as u32, new_height as u32))
    } else {
        None
    }
}

/// The name of an image's format: its extension in capitals, or `UNKNOWN`
/// where it has none.
pub open spec fn format_name(path: Seq<char>) -> Seq<char> {
    match path_extension(path) {
        Some(ext) => uppercase_of(ext),
        None => uppercase_of("unknown"@),
    }
}

/// What is known of the image at `path`.
pub open spec fn image_metadata(
    path: Seq<char>,
    width: u32,
    height: u32,
    file_size: Option<u64>,
) -> ImageMetadataView {
    ImageMetadataView { format: format_name(path), width, height, file_size }
}

/// Gathers what is known of the image at `path`.
pub fn extract_image_metadata(path: &str, width: u32, height: u32, file_size: Option<u64>) -> (r:
    ImageMetadata)
    ensures
        r@ == image_metadata(path@, width, height, file_size),
{
    let format = match extension(path) {
        Some(ext) => to_uppercase(ext.as_str()),
        None => to_uppercase("unknown"),
    };
    ImageMetadata { format, width, height, file_size }
}

/// The line that refers to the image.
pub open spec fn image_line(reference: Seq<char>) -> Seq<char> {
    "![Image]("@ + reference + ")\n"@
}

/// The section with the recognized text, where there is any.
pub open spec fn ocr_section(text: Option<Seq<char>>) -> Seq<char> {
    match text {
        Some(t) => if is_blank(t) {
            Seq::empty()
        } else {
            "\n## Extracted Text\n\n"@ + t + seq!['\n']
        },
        None => Seq::empty(),
    }
}

/// The line with the file's size, where it is known.
pub open spec fn file_size_line(size: Option<u64>) -> Seq<char> {
    match size {
        Some(bytes) => "- **File Size**: "@ + file_size_text(bytes as nat) + seq!['\n'],
        None => Seq::empty(),
    }
}

/// The section with what is known of the file, where anything is.
pub open spec fn metadata_section(
    file_name: Seq<char>,
    metadata: Option<ImageMetadataView>,
) -> Seq<char> {
    match metadata {
        Some(m) => "\n## Image Metadata\n\n- **File**: "@ + file_name + "\n- **Format**: "@
            + m.format + "\n- **Dimensions**: "@ + decimal(m.width as nat) + seq!['x'] + decimal(
            m.height as nat,
        ) + seq!['\n'] + file_size_line(m.file_size) + seq!['\n'],
        None => Seq::empty(),
    }
}

/// The Markdown for an image.
pub open spec fn image_document(
    file_name: Seq<char>,
    reference: Seq<char>,
    ocr_text: Option<Seq<char>>,
    metadata: Option<ImageMetadataView>,
    config: Config,
    args: Args,
) -> Seq<char> {
    title_front_matter(config.wants_frontmatter(), option_text(args.title)) + image_line(reference)
        + ocr_section(ocr_text) + metadata_section(file_name, metadata)
}

/// Whether the run asks for text recognition.
pub fn wants_ocr(config: &Config, args: &Args) -> (b: bool)
    ensures
        b == (args.ocr || config.ocr.enabled),
{
    args.ocr || config.ocr.enabled
}

/// Appends the section with the recognized text, where there is any.
fn push_ocr_section(out: &mut Vec<char>, ocr_text: &Option<String>)
    ensures
        final(out)@ == old(out)@ + ocr_section(option_text(*ocr_text)),
{
    match ocr_text {
        Some(text) => {
            let chars = to_chars(text.as_str());
            if skip_whitespace_from(chars.as_slice(), 0) < chars.len() {
                push_str(out, "\n## Extracted Text\n\n");
                push_str(out, text.as_str());
                out.push('\n');
                assert(out@ =~= old(out)@ + ("\n## Extracted Text\n\n"@ + text@ + seq!['\n']));
            } else {
                assert(out@ =~= old(out)@ + Seq::<char>::empty());
            }
        },
        None => {
            assert(out@ =~= old(out)@ + Seq::<char>::empty());
        },
    }
}

/// Appends the line with the file's size, where it is known.
fn push_file_size_line(out: &mut Vec<char>, size: Option<u64>)
    ensures
        final(out)@ == old(out)@ + file_size_line(size),
{
    match size {
        Some(bytes) => {
            push_str(out, "- **File Size**: ");
            let text = format_file_size(bytes);
            push_str(out, text.as_str());
            out.push('\n');
            assert(out@ =~= old(out)@ + ("- **File Size**: "@ + file_size_text(bytes as nat)
                + seq!['\n']));
        },
        None => {
            assert(out@ =~= old(out)@ + Seq::<char>::empty());
        },
    }
}

/// Appends the section with what is known of the file, where anything is.
fn push_metadata_section(out: &mut Vec<char>, file_name: &str, metadata: &Option<ImageMetadata>)
    ensures
        final(out)@ == old(out)@ + metadata_section(file_name@, option_metadata(*metadata)),
{
    match metadata {
        Some(m) => {
            push_str(out, "\n## Image Metadata\n\n- **File**: ");
            push_str(out, file_name);
            push_str(out, "\n- **Format**: ");
            push_str(out, m.format.as_str());
            push_str(out, "\n- **Dimensions**: ");
            push_decimal(out, m.width as u64);
            out.push('x');
            push_decimal(out, m.height as u64);
            out.push('\n');
            let ghost sized = out@;
            assert(sized =~= old(out)@ + ("\n## Image Metadata\n\n- **File**: "@ + file_name@
                + "\n- **Format**: "@ + m.format@ + "\n- **Dimensions**: "@ + decimal(
                m.width as nat,
            ) + seq!['x'] + decimal(m.height as nat) + seq!['\n']));
            push_file_size_line(out, m.file_size);
            out.push('\n');
            assert(out@ =~= old(out)@ + metadata_section(file_name@, option_metadata(*metadata)));
        },
        None => {
            assert(out@ =~= old(out)@ + Seq::<char>::empty());
        },
    }
}

/// Writes the Markdown for the image named `file_name`: front matter with
/// the title where one is given, the reference to the image, the recognized
/// text unless it is missing or blank, and the metadata where there is
/// any. `reference` is how the image is referred to under the configured
/// mode. Fails with a generic error exactly when the configured image mode
/// is none of `keep`, `download` and `inline`.
pub fn convert_image(
    file_name: &str,
    reference: &str,
    ocr_text: &Option<String>,
    metadata: &Option<ImageMetadata>,
    config: &Config,
    args: &Args,
) -> (r: Result<String, C2mdError>)
    ensures
        r is Ok == mode_named(config.images.mode@) is Some,
        r is Ok ==> r->Ok_0@ == image_document(
            file_name@,
            reference@,
            option_text(*ocr_text),
            option_metadata(*metadata),
            *config,
            *args,
        ),
        r is Err ==> r->Err_0 is Generic && r->Err_0->Generic_0@ == "Invalid image mode"@,
{
    match image_mode(config) {
        Ok(_) => {},
        Err(e) => {
            return Err(e);
        },
    }
    let mut out: Vec<char> = Vec::new();
    push_title_front_matter(&mut out, config, &args.title);
    let ghost front = out@;
    push_str(&mut out, "![Image](");
    push_str(&mut out, reference);
    push_str(&mut out, ")\n");
    let ghost referred = out@;
    assert(referred =~= front + image_line(reference@));
    push_ocr_section(&mut out, ocr_text);
    push_metadata_section(&mut out, file_name, metadata);
    Ok(string_from_chars(out.as_slice()))
}

} // verus!
