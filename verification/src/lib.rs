//! Document-to-Markdown conversion: which files a run takes up, where
//! their outputs go, how each format is routed to its converter, and the
//! converter that infers Markdown structure from plain text.
//!
//! The library works on what has been read of a file; reading and writing
//! files is left to the application around it.

pub mod chars;
pub mod cli;
pub mod clock;
pub mod config;
pub mod converter;
pub mod discovery;
pub mod error;
pub mod metadata;
pub mod paths;
pub mod pattern;
pub mod strings;
pub mod template;
pub mod utils;
pub mod validator;

use vstd::prelude::*;
use crate::cli::Args;
use crate::config::Config;
use crate::converter::notice::notice_date;
use crate::converter::router::converter_for;
use crate::converter::router::format_named;
use crate::converter::router::fulfils;
use crate::converter::router::routed;
use crate::converter::router::Source;
use crate::converter::Converter;
use crate::error::C2mdError;
use crate::error::Failure;
use crate::utils::get_file_extension;
use crate::utils::lowered_extension;

verus! {

/// The options of a single conversion.
#[derive(Debug, Clone)]
pub struct Options {
    pub title: Option<String>,
    pub author: Option<String>,
    pub date: Option<String>,
    pub frontmatter: String,
    pub wrap: String,
    pub width: usize,
    pub tables: String,
    pub headings: String,
    pub slug: String,
    pub list_style: String,
    pub code_fence: String,
    pub images: String,
    pub ocr: bool,
    pub ocr_lang: Option<String>,
}

impl Options {
    /// Whether `self` holds the built-in defaults.
    pub open spec fn is_default(self) -> bool {
        &&& self.title is None
        &&& self.author is None
        &&& self.date is None
        &&& self.frontmatter@ == "yaml"@
        &&& self.wrap@ == "soft"@
        &&& self.width == 100
        &&& self.tables@ == "grid"@
        &&& self.headings@ == "atx"@
        &&& self.slug@ == "github"@
        &&& self.list_style@ == "dash"@
        &&& self.code_fence@ == "```"@
        &&& self.images@ == "keep"@
        &&& !self.ocr
        &&& self.ocr_lang is None
    }

    /// Whether `args` are the invocation options that stand for `self`:
    /// what `self` holds is taken over, and everything else is as if no
    /// option had been given on the command line.
    pub open spec fn is_args(self, args: Args) -> bool {
        &&& args.inputs@.len() == 0
        &&& args.output is None
        &&& args.out_dir is None
        &&& !args.preserve_structure
        &&& args.from is None
        &&& args.to@ == "gfm"@
        &&& args.encoding is None
        &&& args.headings == self.headings
        &&& args.slug == self.slug
        &&& args.wrap == self.wrap
        &&& args.width == self.width
        &&& args.tables == self.tables
        &&& args.list_style == self.list_style
        &&& args.code_fence == self.code_fence
        &&& args.frontmatter == self.frontmatter
        &&& args.title == self.title
        &&& args.author == self.author
        &&& args.date == self.date
        &&& args.images == self.images
        &&& args.assets_dir is None
        &&& args.image_max_width is None
        &&& args.ocr == self.ocr
        &&& args.ocr_lang == self.ocr_lang
        &&& args.pdf_layout@ == "auto"@
        &&& args.libreoffice_bin is None
        &&& args.sheet is None
        &&& args.sheets@ == "all"@
        &&& args.math@ == "auto"@
        &&& args.math_block@ == "$$"@
        &&& !args.watch
        &&& args.jobs is None
        &&& !args.dry_run
        &&& !args.verbose
        &&& args.config is None
        &&& args.template@ == "default"@
        &&& !args.include_metadata
        &&& !args.validate
        &&& !args.metadata_only
    }

    /// The invocation options that stand for these options.
    pub fn to_args(&self) -> (args: Args)
        ensures
            self.is_args(args),
    {
        Args {
            inputs: Vec::new(),
            output: None,
            out_dir: None,
            preserve_structure: false,
            from: None,
            to: "gfm".to_string(),
            encoding: None,
            headings: self.headings.clone(),
            slug: self.slug.clone(),
            wrap: self.wrap.clone(),
            width: self.width,
            tables: self.tables.clone(),
            list_style: self.list_style.clone(),
            code_fence: self.code_fence.clone(),
            frontmatter: self.frontmatter.clone(),
            title: self.title.clone(),
            author: self.author.clone(),
            date: self.date.clone(),
            images: self.images.clone(),
            assets_dir: None,
            image_max_width: None,
            ocr: self.ocr,
            ocr_lang: self.ocr_lang.clone(),
            pdf_layout: "auto".to_string(),
            libreoffice_bin: None,
            sheet: None,
            sheets: "all".to_string(),
            math: "auto".to_string(),
            math_block: "$$".to_string(),
            watch: false,
            jobs: None,
            dry_run: false,
            verbose: false,
            config: None,
            template: "default".to_string(),
            include_metadata: false,
            validate: false,
            metadata_only: false,
        }
    }
}

impl Default for Options {
    /// The built-in defaults.
    fn default() -> (options: Self)
        ensures
            options.is_default(),
    {
        Options {
            title: None,
            author: None,
            date: None,
            frontmatter: "yaml".to_string(),
            wrap: "soft".to_string(),
            width: 100,
            tables: "grid".to_string(),
            headings: "atx".to_string(),
            slug: "github".to_string(),
            list_style: "dash".to_string(),
            code_fence: "```".to_string(),
            images: "keep".to_string(),
            ocr: false,
            ocr_lang: None,
        }
    }
}

/// The Markdown of a source under the given configuration and options,
/// with `today` as the date where the options give none; or the failure
/// of the conversion: the path has no extension, no converter is
/// registered for the extension, or the converter fails.
pub open spec fn conversion(source: Source, config: Config, args: Args, today: Seq<char>) -> Result<
    Seq<char>,
    Failure,
> {
    match lowered_extension(source.path@) {
        None => Err(Failure::UndeterminedExtension),
        Some(ext) => match format_named(ext) {
            None => Err(Failure::Unsupported(ext)),
            Some(format) => routed(format, source, config, args, today),
        },
    }
}

/// Whether `r` is the outcome of converting `source` with `options` under
/// the default configuration, on the day `today`.
pub open spec fn converts(source: Source, options: Options, config: Config, args: Args, today: Seq<
    char,
>, r: Result<String, C2mdError>) -> bool {
    config.is_default() && options.is_args(args) && fulfils(
        r,
        conversion(source, config, args, today),
    )
}

/// Converts one file to Markdown, given what was read of it, under the
/// default configuration. The converter is chosen by the extension of the
/// source's path, in any case. Fails with a generic error where the path
/// has no extension, with an unsupported-format error where no converter
/// is registered for it, and with the converter's error where that fails.
/// The clock is read for the date of the front matter where the options
/// give none.
pub fn convert(source: &Source, options: Options) -> (r: Result<String, C2mdError>)
    ensures
        exists|config: Config, args: Args, today: Seq<char>| #[trigger]
            converts(*source, options, config, args, today, r),
{
    let config = Config::default();
    let args = options.to_args();
    let format = match get_file_extension(source.path.as_str()) {
        Ok(format) => format,
        Err(e) => {
            let r = Err(e);
            assert(converts(*source, options, config, args, Seq::empty(), r));
            return r;
        },
    };
    let kind = match converter_for(format.as_str()) {
        Ok(kind) => kind,
        Err(e) => {
            let r = Err(e);
            assert(converts(*source, options, config, args, Seq::empty(), r));
            return r;
        },
    };
    let today = notice_date(&config, &args);
    let converter = Converter { config, args };
    let r = converter.convert_by_format(kind, source, today.as_str());
    assert(converts(*source, options, converter.config, converter.args, today@, r));
    r
}

} // verus!
