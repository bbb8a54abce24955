//! The error type shared by every part of the crate.

use vstd::prelude::*;
use crate::chars::push_str;
use crate::chars::string_from_chars;

verus! {

/// Everything that can go wrong while discovering or converting documents.
/// Each variant carries the text that describes the failure.
#[derive(Debug, Clone, PartialEq, Eq)]
pub enum C2mdError {
    /// A file could not be read or written.
    Io(String),
    /// The configuration is unusable.
    Config(String),
    /// A converter failed on its input.
    Conversion(String),
    /// No converter is registered for the format.
    UnsupportedFormat(String),
    /// A required external tool is absent.
    MissingDependency(String),
    /// Text recognition failed.
    Ocr(String),
    /// Pandoc reported a failure.
    Pandoc(String),
    /// LibreOffice reported a failure.
    LibreOffice(String),
    /// A PDF could not be processed.
    Pdf(String),
    /// An image could not be processed.
    Image(String),
    /// A network transfer failed.
    Network(String),
    /// The configuration file could not be parsed or written.
    Serialization(String),
    /// JSON could not be parsed or written.
    Json(String),
    /// A regular expression did not compile.
    Regex(String),
    /// A path met during glob expansion could not be read.
    Glob(String),
    /// A glob pattern is malformed.
    Pattern(String),
    /// A directory walk failed.
    Walkdir(String),
    /// A temporary file could not be persisted.
    Tempfile(String),
    /// The file-system watcher failed.
    Notify(String),
    /// Bytes were not valid UTF-8.
    Utf8(String),
    /// CSV input is malformed.
    Csv(String),
    /// An image could not be decoded or encoded.
    ImageError(String),
    /// Any other failure.
    Generic(String),
}

impl C2mdError {
    /// The words that introduce the message of this kind of error.
    pub open spec fn label_text(self) -> Seq<char> {
        match self {
            C2mdError::Io(_) => "IO error: "@,
            C2mdError::Config(_) => "Configuration error: "@,
            C2mdError::Conversion(_) => "Conversion error: "@,
            C2mdError::UnsupportedFormat(_) => "Unsupported format: "@,
            C2mdError::MissingDependency(_) => "Missing dependency: "@,
            C2mdError::Ocr(_) => "OCR error: "@,
            C2mdError::Pandoc(_) => "Pandoc error: "@,
            C2mdError::LibreOffice(_) => "LibreOffice error: "@,
            C2mdError::Pdf(_) => "PDF processing error: "@,
            C2mdError::Image(_) => "Image processing error: "@,
            C2mdError::Network(_) => "Network error: "@,
            C2mdError::Serialization(_) => "Serialization error: "@,
            C2mdError::Json(_) => "JSON error: "@,
            C2mdError::Regex(_) => "Regex error: "@,
            C2mdError::Glob(_) => "Glob error: "@,
            C2mdError::Pattern(_) => "Pattern error: "@,
            C2mdError::Walkdir(_) => "Walkdir error: "@,
            C2mdError::Tempfile(_) => "Tempfile error: "@,
            C2mdError::Notify(_) => "Notify error: "@,
            C2mdError::Utf8(_) => "UTF-8 error: "@,
            C2mdError::Csv(_) => "CSV error: "@,
            C2mdError::ImageError(_) => "Image error: "@,
            C2mdError::Generic(_) => "Generic error: "@,
        }
    }

    /// The text carried by the error.
    pub open spec fn detail_text(self) -> Seq<char> {
        match self {
            C2mdError::Io(m) => m@,
            C2mdError::Config(m) => m@,
            C2mdError::Conversion(m) => m@,
            C2mdError::UnsupportedFormat(m) => m@,
            C2mdError::MissingDependency(m) => m@,
            C2mdError::Ocr(m) => m@,
            C2mdError::Pandoc(m) => m@,
            C2mdError::LibreOffice(m) => m@,
            C2mdError::Pdf(m) => m@,
            C2mdError::Image(m) => m@,
            C2mdError::Network(m) => m@,
            C2mdError::Serialization(m) => m@,
            C2mdError::Json(m) => m@,
            C2mdError::Regex(m) => m@,
            C2mdError::Glob(m) => m@,
            C2mdError::Pattern(m) => m@,
            C2mdError::Walkdir(m) => m@,
            C2mdError::Tempfile(m) => m@,
            C2mdError::Notify(m) => m@,
            C2mdError::Utf8(m) => m@,
            C2mdError::Csv(m) => m@,
            C2mdError::ImageError(m) => m@,
            C2mdError::Generic(m) => m@,
        }
    }

    /// The full message: the label followed by the carried text.
    pub open spec fn message_text(self) -> Seq<char> {
        self.label_text() + self.detail_text()
    }

    /// The words that introduce the message of this kind of error.
    pub fn label(&self) -> (r: &'static str)
        ensures
            r@ == self.label_text(),
    {
        match self {
            C2mdError::Io(_) => "IO error: ",
            C2mdError::Config(_) => "Configuration error: ",
            C2mdError::Conversion(_) => "Conversion error: ",
            C2mdError::UnsupportedFormat(_) => "Unsupported format: ",
            C2mdError::MissingDependency(_) => "Missing dependency: ",
            C2mdError::Ocr(_) => "OCR error: ",
            C2mdError::Pandoc(_) => "Pandoc error: ",
            C2mdError::LibreOffice(_) => "LibreOffice error: ",
            C2mdError::Pdf(_) => "PDF processing error: ",
            C2mdError::Image(_) => "Image processing error: ",
            C2mdError::Network(_) => "Network error: ",
            C2mdError::Serialization(_) => "Serialization error: ",
            C2mdError::Json(_) => "JSON error: ",
            C2mdError::Regex(_) => "Regex error: ",
            C2mdError::Glob(_) => "Glob error: ",
            C2mdError::Pattern(_) => "Pattern error: ",
            C2mdError::Walkdir(_) => "Walkdir error: ",
            C2mdError::Tempfile(_) => "Tempfile error: ",
            C2mdError::Notify(_) => "Notify error: ",
            C2mdError::Utf8(_) => "UTF-8 error: ",
            C2mdError::Csv(_) => "CSV error: ",
            C2mdError::ImageError(_) => "Image error: ",
            C2mdError::Generic(_) => "Generic error: ",
        }
    }

    /// The text carried by the error.
    pub fn detail(&self) -> (r: &str)
        ensures
            r@ == self.detail_text(),
    {
        match self {
            C2mdError::Io(m) => m.as_str(),
            C2mdError::Config(m) => m.as_str(),
            C2mdError::Conversion(m) => m.as_str(),
            C2mdError::UnsupportedFormat(m) => m.as_str(),
            C2mdError::MissingDependency(m) => m.as_str(),
            C2mdError::Ocr(m) => m.as_str(),
            C2mdError::Pandoc(m) => m.as_str(),
            C2mdError::LibreOffice(m) => m.as_str(),
            C2mdError::Pdf(m) => m.as_str(),
            C2mdError::Image(m) => m.as_str(),
            C2mdError::Network(m) => m.as_str(),
            C2mdError::Serialization(m) => m.as_str(),
            C2mdError::Json(m) => m.as_str(),
            C2mdError::Regex(m) => m.as_str(),
            C2mdError::Glob(m) => m.as_str(),
            C2mdError::Pattern(m) => m.as_str(),
            C2mdError::Walkdir(m) => m.as_str(),
            C2mdError::Tempfile(m) => m.as_str(),
            C2mdError::Notify(m) => m.as_str(),
            C2mdError::Utf8(m) => m.as_str(),
            C2mdError::Csv(m) => m.as_str(),
            C2mdError::ImageError(m) => m.as_str(),
            C2mdError::Generic(m) => m.as_str(),
        }
    }

    /// The message a user sees for this error.
    pub fn message(&self) -> (r: String)
        ensures
            r@ == self.message_text(),
    {
        let mut out: Vec<char> = Vec::new();
        push_str(&mut out, self.label());
        push_str(&mut out, self.detail());
        string_from_chars(out.as_slice())
    }
}

/// The kinds of failure that converting one file can end in, with the
/// text that tells them apart where there is one.
pub enum Failure {
    /// A name had to be derived from a path without a file stem.
    InvalidFileName,
    /// The content could not be read, for the given reason.
    Io(Seq<char>),
    /// A pattern did not compile.
    Pattern,
    /// The content is not what its format promises, for the given reason.
    InvalidFile(Seq<char>),
    /// The path has no extension to tell its format by.
    NoExtension,
    /// The path has no extension to choose a converter by.
    UndeterminedExtension,
    /// No converter is registered for the given format.
    Unsupported(Seq<char>),
    /// The content cannot be read as CSV.
    Csv,
    /// The configured image mode is unknown.
    ImageMode,
    /// The file is an image, and nothing is known of it as one.
    ImageMissing,
}

/// Whether the error `e` reports the failure `f`.
pub open spec fn reports(e: C2mdError, f: Failure) -> bool {
    match f {
        Failure::InvalidFileName => e is Generic && e->Generic_0@ == "Invalid file name"@,
        Failure::Io(reason) => e is Io && e->Io_0@ == reason,
        Failure::Pattern => e is Regex,
        Failure::InvalidFile(reason) => e is Generic && e->Generic_0@ == "Invalid file: "@
            + reason,
        Failure::NoExtension => e is Generic && e->Generic_0@ == "Cannot detect file format"@,
        Failure::UndeterminedExtension => e is Generic && e->Generic_0@
            == "Cannot determine file extension"@,
        Failure::Unsupported(format) => e is UnsupportedFormat && e->UnsupportedFormat_0@
            == format,
        Failure::Csv => e is Csv,
        Failure::ImageMode => e is Generic && e->Generic_0@ == "Invalid image mode"@,
        Failure::ImageMissing => e is Image,
    }
}

} // verus!
