//! The options of one invocation.

use vstd::prelude::*;

verus! {

/// The options of one invocation. Paths are held as text.
#[derive(Debug, Clone)]
pub struct Args {
    /// Input files, directories or glob patterns.
    pub inputs: Vec<String>,
    /// The single output file, if one is given.
    pub output: Option<String>,
    /// The directory that receives the outputs in batch mode.
    pub out_dir: Option<String>,
    /// Whether the input tree is mirrored under the output directory.
    pub preserve_structure: bool,
    pub from: Option<String>,
    pub to: String,
    pub encoding: Option<String>,
    pub headings: String,
    pub slug: String,
    pub wrap: String,
    pub width: usize,
    pub tables: String,
    pub list_style: String,
    pub code_fence: String,
    pub frontmatter: String,
    pub title: Option<String>,
    pub author: Option<String>,
    pub date: Option<String>,
    pub images: String,
    pub assets_dir: Option<String>,
    pub image_max_width: Option<usize>,
    pub ocr: bool,
    pub ocr_lang: Option<String>,
    pub pdf_layout: String,
    pub libreoffice_bin: Option<String>,
    pub sheet: Option<String>,
    pub sheets: String,
    pub math: String,
    pub math_block: String,
    pub watch: bool,
    pub jobs: Option<usize>,
    pub dry_run: bool,
    pub verbose: bool,
    pub config: Option<String>,
    pub template: String,
    pub include_metadata: bool,
    pub validate: bool,
    pub metadata_only: bool,
}

} // verus!
