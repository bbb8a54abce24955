//! Run configuration, with the defaults used when no file overrides them.

use vstd::prelude::*;

verus! {

/// How images referenced by a document are handled.
#[derive(Debug, Clone)]
pub struct ImageConfig {
    pub mode: String,
    pub assets_dir: String,
}

/// PDF extraction settings.
#[derive(Debug, Clone)]
pub struct PdfConfig {
    pub layout: String,
}

/// Text-recognition settings.
#[derive(Debug, Clone)]
pub struct OcrConfig {
    pub enabled: bool,
    pub lang: String,
}

/// Equation handling.
#[derive(Debug, Clone)]
pub struct MathConfig {
    pub mode: String,
}

/// Batch-mode settings.
#[derive(Debug, Clone)]
pub struct BatchConfig {
    pub jobs: String,
}

/// The settings of one run.
#[derive(Debug, Clone)]
pub struct Config {
    pub to: String,
    pub wrap: String,
    pub width: usize,
    pub frontmatter: String,
    pub slug: String,
    pub tables: String,
    pub images: ImageConfig,
    pub pdf: PdfConfig,
    pub ocr: OcrConfig,
    pub math: MathConfig,
    pub batch: BatchConfig,
    pub ignore: Vec<String>,
}

impl Config {
    /// Whether `self` holds the built-in defaults.
    pub open spec fn is_default(self) -> bool {
        &&& self.to@ == "gfm"@
        &&& self.wrap@ == "soft"@
        &&& self.width == 100
        &&& self.frontmatter@ == "yaml"@
        &&& self.slug@ == "github"@
        &&& self.tables@ == "grid"@
        &&& self.images.mode@ == "download"@
        &&& self.images.assets_dir@ == "assets"@
        &&& self.pdf.layout@ == "smart"@
        &&& !self.ocr.enabled
        &&& self.ocr.lang@ == "eng"@
        &&& self.math.mode@ == "auto"@
        &&& self.batch.jobs@ == "auto"@
        &&& self.ignore@.len() == 2
        &&& self.ignore@[0]@ == "**/node_modules/**"@
        &&& self.ignore@[1]@ == "**/.git/**"@
    }

    /// Whether hard wrapping is asked for.
    pub open spec fn wraps_hard(self) -> bool {
        self.wrap@ == "hard"@
    }

    /// Whether front matter is to be written.
    pub open spec fn wants_frontmatter(self) -> bool {
        self.frontmatter@ != "none"@
    }
}

impl Default for Config {
    /// The built-in defaults.
    fn default() -> (c: Self)
        ensures
            c.is_default(),
    {
        let mut ignore: Vec<String> = Vec::new();
        ignore.push("**/node_modules/**".to_string());
        ignore.push("**/.git/**".to_string());
        Config {
            to: "gfm".to_string(),
            wrap: "soft".to_string(),
            width: 100,
            frontmatter: "yaml".to_string(),
            slug: "github".to_string(),
            tables: "grid".to_string(),
            images: ImageConfig { mode: "download".to_string(), assets_dir: "assets".to_string() },
            pdf: PdfConfig { layout: "smart".to_string() },
            ocr: OcrConfig { enabled: false, lang: "eng".to_string() },
            math: MathConfig { mode: "auto".to_string() },
            batch: BatchConfig { jobs: "auto".to_string() },
            ignore,
        }
    }
}

} // verus!
