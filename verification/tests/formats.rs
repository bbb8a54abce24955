use c2md::cli::Args;
use c2md::config::Config;
use c2md::convert;
use c2md::converter::epub::convert_epub;
use c2md::converter::epub::epub_markdown;
use c2md::converter::html::convert_html;
use c2md::converter::html::html_to_markdown;
use c2md::converter::html::replace_tags;
use c2md::converter::image::asset_path;
use c2md::converter::image::clean_ocr_text;
use c2md::converter::image::convert_image;
use c2md::converter::image::extract_image_metadata;
use c2md::converter::image::image_mode;
use c2md::converter::image::inline_image;
use c2md::converter::image::resize_image;
use c2md::converter::image::ImageMode;
use c2md::converter::office::convert_excel;
use c2md::converter::office::convert_office;
use c2md::converter::office::office_markdown;
use c2md::converter::office::powerpoint_markdown;
use c2md::converter::pdf::convert_pdf;
use c2md::converter::pdf::pdf_markdown;
use c2md::converter::router::converter_for;
use c2md::converter::router::Format;
use c2md::converter::router::ImageSource;
use c2md::converter::router::Source;
use c2md::converter::rtf::rtf_markdown;
use c2md::converter::Converter;
use c2md::error::C2mdError;
use c2md::metadata::count_words;
use c2md::metadata::extract_html_meta;
use c2md::metadata::extract_html_tag;
use c2md::metadata::extract_metadata;
use c2md::metadata::format_metadata_as_markdown;
use c2md::metadata::strip_html_tags;
use c2md::validator::detect_format;
use c2md::validator::detect_mime_type;
use c2md::validator::validate_file;
use c2md::validator::validate_format;
use c2md::Options;

fn args() -> Args {
    Options::default().to_args()
}

fn bare() -> Config {
    let mut config = Config::default();
    config.frontmatter = "none".to_string();
    config.images.mode = "keep".to_string();
    config
}

fn source(path: &str, content: &[u8]) -> Source {
    Source { path: path.to_string(), content: content.to_vec(), modified: 1431648000, image: None }
}

#[test]
fn spreadsheet_notice() {
    let out = convert_excel("book.xlsx", &bare(), &args()).unwrap();
    assert_eq!(
        out,
        "# Excel Spreadsheet\n\n**Note**: Excel conversion requires external tools.\n\n\
         To enable Excel conversion, install:\n- `libreoffice` (for headless conversion)\n\
         - `pandoc` (for universal conversion)\n\n## File Information\n\n\
         - **File**: book.xlsx\n- **Format**: Excel Spreadsheet\n"
    );
}

#[test]
fn spreadsheet_notice_with_title() {
    let mut a = args();
    a.title = Some("Budget".to_string());
    a.author = Some("nobody shows".to_string());
    let out = convert_excel("b.xls", &Config::default(), &a).unwrap();
    assert!(out.starts_with("---\ntitle: Budget\n---\n\n# Excel Spreadsheet\n\n"));
}

#[test]
fn office_notice_with_full_front_matter() {
    let mut a = args();
    a.title = Some("T".to_string());
    a.author = Some("A".to_string());
    let out = office_markdown("x.docx", &Config::default(), &a, "2024-01-02");
    assert!(out.starts_with("---\ntitle: T\nauthor: A\ndate: 2024-01-02\n---\n\n# Office Document\n\n"));
    assert!(out.ends_with("- **File**: x.docx\n- **Format**: Office Document\n"));
    a.date = Some("1999-12-31".to_string());
    let dated = convert_office("x.docx", &Config::default(), &a).unwrap();
    assert_eq!(dated, office_markdown("x.docx", &Config::default(), &a, "ignored"));
    assert!(dated.contains("date: 1999-12-31\n"));
}

#[test]
fn other_notices_name_their_format() {
    let a = args();
    assert!(powerpoint_markdown("s.pptx", &bare(), &a, "").starts_with("# PowerPoint Presentation\n\n"));
    assert!(powerpoint_markdown("s.pptx", &bare(), &a, "").ends_with("- **File**: s.pptx\n- **Format**: PowerPoint Presentation\n"));
    assert!(rtf_markdown("r.rtf", &bare(), &a, "").contains("- `unrtf` (for RTF-specific conversion)\n\n"));
    assert!(rtf_markdown("r.rtf", &bare(), &a, "").ends_with("- **Format**: RTF Document\n"));
    assert!(epub_markdown("e.epub", &bare(), &a, "").contains("- `calibre` (for EPUB processing)\n\n"));
    assert_eq!(convert_epub("e.epub", &bare(), &a).unwrap(), epub_markdown("e.epub", &bare(), &a, "any"));
}

#[test]
fn pdf_notice_shows_size_and_recognition() {
    let plain = pdf_markdown("p.pdf", None, &bare(), &args(), "");
    assert_eq!(
        plain,
        "# PDF Document\n\n**Note**: PDF conversion requires external tools like `pdftotext` or `pandoc`.\n\n\
         To enable PDF conversion, install:\n- `poppler-utils` (for pdftotext)\n\
         - `pandoc` (for universal conversion)\n\n## File Information\n\n\
         - **File**: p.pdf\n- **Format**: PDF\n"
    );
    let mut a = args();
    a.ocr = true;
    let full = convert_pdf("p.pdf", Some(2048), &bare(), &a).unwrap();
    assert!(full.contains("**OCR Note**: OCR functionality requires `tesseract` to be installed.\n\n## File Information"));
    assert!(full.ends_with("- **Format**: PDF\n- **Size**: 2.0 KB\n"));
}

#[test]
fn html_tags_become_markdown() {
    let out = convert_html("<h1>Title</h1><p>Some <strong>bold</strong> and <em>fine</em> text</p>", &bare(), &args()).unwrap();
    assert_eq!(out, "# Title\n\nSome **bold** and *fine* text\n\n");
}

#[test]
fn html_is_sanitized_before_it_is_converted() {
    let out = convert_html("XSS<script>attack</script>", &bare(), &args()).unwrap();
    assert_eq!(out, "XSS");
}

#[test]
fn html_lists_breaks_and_unknown_tags() {
    let out = html_to_markdown("<ul><li>a</li><li>b</li></ul>x<br>y<span class=\"c\">z</span>", &bare(), &args()).unwrap();
    assert_eq!(out, "- a\n- b\n\nx\nyz");
}

#[test]
fn html_blank_lines_are_reduced() {
    let out = html_to_markdown("<p>a</p>\n\n\n<p>b</p>", &bare(), &args()).unwrap();
    assert_eq!(out, "a\n\nb\n\n");
}

#[test]
fn html_replacements_run_in_order() {
    assert_eq!(replace_tags("<pre>x</pre><code>y</code><h6>z</h6>"), "```\nx\n```\n`y`###### z\n\n");
    assert_eq!(replace_tags("<br/><br /><i>i</i><b>b</b><ol></ol>"), "\n\n*i***b**\n");
}

#[test]
fn html_is_wrapped_with_its_front_matter() {
    let mut config = Config::default();
    config.wrap = "hard".to_string();
    config.width = 12;
    let mut a = args();
    a.date = Some("2024-01-01".to_string());
    let out = html_to_markdown("<p>one two three four</p>", &config, &a).unwrap();
    assert_eq!(out, "---\ndate:\n2024-01-01\n---\n\none two\nthree four\n\n");
}

#[test]
fn image_modes() {
    let mut config = bare();
    assert_eq!(image_mode(&config), Ok(ImageMode::Keep));
    config.images.mode = "download".to_string();
    assert_eq!(image_mode(&config), Ok(ImageMode::Download));
    config.images.mode = "inline".to_string();
    assert_eq!(image_mode(&config), Ok(ImageMode::Inline));
    config.images.mode = "Keep".to_string();
    assert_eq!(image_mode(&config), Err(C2mdError::Generic("Invalid image mode".to_string())));
    let outcome = convert_image("p.png", "p.png", &None, &None, &config, &args());
    assert_eq!(outcome, Err(C2mdError::Generic("Invalid image mode".to_string())));
}

#[test]
fn image_document_with_text_and_metadata() {
    let metadata = extract_image_metadata("dir/pic.png", 10, 20, Some(2048));
    assert_eq!(metadata.format, "PNG");
    let out = convert_image("pic.png", "dir/pic.png", &Some("Seen text".to_string()), &Some(metadata), &bare(), &args()).unwrap();
    assert_eq!(
        out,
        "![Image](dir/pic.png)\n\n## Extracted Text\n\nSeen text\n\n## Image Metadata\n\n\
         - **File**: pic.png\n- **Format**: PNG\n- **Dimensions**: 10x20\n- **File Size**: 2.0 KB\n\n"
    );
}

#[test]
fn image_document_without_text_or_metadata() {
    let out = convert_image("pic.png", "pic.png", &Some(" \n\t".to_string()), &None, &bare(), &args()).unwrap();
    assert_eq!(out, "![Image](pic.png)\n");
    let unknown = extract_image_metadata("noext", 1, 2, None);
    assert_eq!(unknown.format, "UNKNOWN");
    let out = convert_image("noext", "noext", &None, &Some(unknown), &bare(), &args()).unwrap();
    assert_eq!(
        out,
        "![Image](noext)\n\n## Image Metadata\n\n- **File**: noext\n- **Format**: UNKNOWN\n- **Dimensions**: 1x2\n\n"
    );
}

#[test]
fn image_is_embedded_as_a_data_uri() {
    assert_eq!(inline_image("a.png", b"hello"), Ok("data:image/png;base64,aGVsbG8=".to_string()));
    assert_eq!(inline_image("a.unknown-kind", b""), Ok("data:application/octet-stream;base64,".to_string()));
}

#[test]
fn copied_image_goes_to_the_assets_directory() {
    let config = Config::default();
    assert_eq!(asset_path("photos/cat.jpg", &config, &args()), Ok("assets/cat.jpg".to_string()));
    assert_eq!(asset_path("photos/cat", &config, &args()), Ok("assets/cat.png".to_string()));
    let mut a = args();
    a.assets_dir = Some("static/img".to_string());
    assert_eq!(asset_path("cat.GIF", &config, &a), Ok("static/img/cat.GIF".to_string()));
    assert_eq!(asset_path("..", &config, &a), Err(C2mdError::Generic("Invalid file name".to_string())));
}

#[test]
fn recognized_text_is_cleaned() {
    assert_eq!(clean_ocr_text("helloWorld"), "hello World");
    assert_eq!(clean_ocr_text("a\n\n\n\nb"), "a\n\nb");
    assert_eq!(clean_ocr_text("  42  "), "");
    assert_eq!(clean_ocr_text("plain text"), "plain text");
}

#[test]
fn images_are_scaled_down_to_the_width() {
    assert_eq!(resize_image(1000, 500, 100), Some((100, 50)));
    assert_eq!(resize_image(1000, 333, 100), Some((100, 33)));
    assert_eq!(resize_image(100, 500, 100), None);
    assert_eq!(resize_image(50, 50, 100), None);
    assert_eq!(resize_image(u32::MAX, u32::MAX, u32::MAX as usize - 1), Some((u32::MAX - 1, u32::MAX - 1)));
    assert_eq!(resize_image(10, 10, 0), Some((0, 0)));
}

#[test]
fn format_is_told_by_extension_or_first_bytes() {
    assert_eq!(detect_format("x.PDF", b""), Ok("pdf".to_string()));
    assert_eq!(detect_format("x.docx", b""), Ok("office".to_string()));
    assert_eq!(detect_format("x.xls", b""), Ok("excel".to_string()));
    assert_eq!(detect_format("x.pptx", b""), Ok("powerpoint".to_string()));
    assert_eq!(detect_format("x.htm", b""), Ok("html".to_string()));
    assert_eq!(detect_format("x.jpeg", b""), Ok("image".to_string()));
    assert_eq!(detect_format("x.txt", b""), Ok("text".to_string()));
    assert_eq!(detect_format("blob", b"%PDF-1.4 and more bytes"), Ok("pdf".to_string()));
    assert_eq!(detect_format("blob.bin", b"\x89PNG\r\n\x1a\n0000000000"), Ok("image".to_string()));
    assert_eq!(detect_format("blob", b"\xFF\xD8\xFF\xE0 0123456789ab"), Ok("image".to_string()));
    assert_eq!(detect_format("blob", b"GIF89a0123456789"), Ok("image".to_string()));
    assert_eq!(detect_format("blob", b"GIF87a0123456789"), Ok("image".to_string()));
    assert_eq!(detect_format("blob", b"BM00000000000000"), Ok("image".to_string()));
    assert_eq!(detect_format("blob", b"{\\rtf1 0123456789"), Ok("rtf".to_string()));
    assert_eq!(detect_format("blob", b"just some text here"), Ok("text".to_string()));
    assert_eq!(detect_format("blob", b"%PDF-1.4"), Err(C2mdError::Io("failed to fill whole buffer".to_string())));
}

#[test]
fn media_type_is_guessed_by_extension() {
    assert_eq!(detect_mime_type("a.png"), Ok(Some("image/png".to_string())));
    assert_eq!(detect_mime_type("a.HTML"), Ok(Some("text/html".to_string())));
    assert_eq!(detect_mime_type("a.not-a-known-kind"), Ok(None));
    assert_eq!(detect_mime_type("noext"), Ok(None));
}

#[test]
fn content_is_checked_against_the_format() {
    let none: Option<String> = None;
    assert_eq!(validate_format("pdf", b"%PDF-1.7", &none), Ok((true, None)));
    assert_eq!(validate_format("pdf", b"nope", &none), Ok((false, Some("Invalid PDF file".to_string()))));
    assert_eq!(validate_format("pdf", b"%PD", &none), Err(C2mdError::Io("failed to fill whole buffer".to_string())));
    assert_eq!(validate_format("office", b"PK\x03\x04rest", &none), Ok((true, None)));
    assert_eq!(validate_format("excel", b"PK\x03\x05rest", &none), Ok((false, Some("Invalid Office document".to_string()))));
    assert_eq!(validate_format("powerpoint", b"PK\x03\x04", &none), Ok((true, None)));
    assert_eq!(validate_format("epub", b"zip?", &none), Ok((false, Some("Invalid EPUB file".to_string()))));
    assert_eq!(validate_format("rtf", b"{\\rtf1", &none), Ok((true, None)));
    assert_eq!(validate_format("rtf", b"{\\rt", &none), Err(C2mdError::Io("failed to fill whole buffer".to_string())));
    assert_eq!(validate_format("rtf", b"hello", &none), Ok((false, Some("Invalid RTF file".to_string()))));
    assert_eq!(validate_format("html", b"<p>x</p>", &none), Ok((true, None)));
    assert_eq!(validate_format("html", b"plain <> text", &none), Ok((false, Some("No HTML tags found".to_string()))));
    assert_eq!(validate_format("html", b"\xFF\xFE", &none), Err(C2mdError::Io("stream did not contain valid UTF-8".to_string())));
    assert_eq!(validate_format("csv", b"a,b\n1,2", &none), Ok((true, None)));
    assert_eq!(validate_format("csv", b"", &none), Ok((false, Some("Empty CSV file".to_string()))));
    assert_eq!(validate_format("csv", b"ab\n1,2", &none), Ok((false, Some("No comma separators found".to_string()))));
    assert_eq!(validate_format("image", b"", &none), Ok((true, None)));
    assert_eq!(
        validate_format("image", b"", &Some("truncated".to_string())),
        Ok((false, Some("Invalid image: truncated".to_string())))
    );
    assert_eq!(validate_format("text", b"\xFF", &none), Ok((true, None)));
    assert_eq!(validate_format("anything", b"", &none), Ok((true, None)));
}

#[test]
fn file_is_checked_as_a_whole() {
    let info = validate_file("dir/a.html", b"<b>x</b>", &None).unwrap();
    assert_eq!(info.path, "dir/a.html");
    assert_eq!(info.size, 8);
    assert_eq!(info.format, "html");
    assert_eq!(info.mime_type, Some("text/html".to_string()));
    assert!(info.is_valid);
    assert_eq!(info.error, None);
    let bad = validate_file("a.pdf", b"<b>x</b>", &None).unwrap();
    assert!(!bad.is_valid);
    assert_eq!(bad.error, Some("Invalid PDF file".to_string()));
    assert!(validate_file("short", b"abc", &None).is_err());
}

#[test]
fn text_metadata_is_gathered() {
    let m = extract_metadata("a.txt", b"  My Title \nsome words here", 1431648000).unwrap();
    assert_eq!(m.title, Some("My Title".to_string()));
    assert_eq!(m.author, None);
    assert_eq!(m.word_count, Some(5));
    assert_eq!(m.character_count, Some(27));
    assert_eq!(m.file_size, 27);
    assert_eq!(m.format, "text");
    assert_eq!(m.modification_date, Some(1431648000));
    assert_eq!(
        format_metadata_as_markdown(&m),
        "## Document Metadata\n\n- **Title**: My Title\n- **Modified**: 2015-05-15 00:00:00 UTC\n\
         - **Words**: 5\n- **Characters**: 27\n- **File Size**: 27 B\n- **Format**: text\n"
    );
}

#[test]
fn html_metadata_is_gathered() {
    let html = "<html><head><title> Page </title><meta name=\"author\" content=\"Ann\">\
                <meta name='keywords' content='a, b'></head><body>Hello world</body></html>";
    let m = extract_metadata("a.HTM", html.as_bytes(), 0).unwrap();
    assert_eq!(m.title, Some("Page".to_string()));
    assert_eq!(m.author, Some("Ann".to_string()));
    assert_eq!(m.subject, None);
    assert_eq!(m.keywords, Some("a, b".to_string()));
    assert_eq!(m.word_count, Some(3));
    assert_eq!(m.character_count, Some(17));
    assert_eq!(extract_html_tag(html, "title"), Some("Page".to_string()));
    assert_eq!(extract_html_tag(html, "h1"), None);
    assert_eq!(extract_html_meta(html, "author"), Some("Ann".to_string()));
    assert_eq!(extract_html_meta(html, "description"), None);
    assert_eq!(strip_html_tags("<p>a <b>b</b></p>"), "a b");
    assert_eq!(count_words(" a  b\nc "), 3);
}

#[test]
fn fixed_metadata_of_the_other_formats() {
    let pdf = extract_metadata("a.pdf", b"", 5).unwrap();
    assert_eq!((pdf.title, pdf.author), (Some("PDF Document".to_string()), Some("Unknown".to_string())));
    let office = extract_metadata("a.doc", b"", 5).unwrap();
    assert_eq!((office.title, office.author), (Some("Office Document".to_string()), Some("Unknown".to_string())));
    let excel = extract_metadata("a.xlsx", b"", 5).unwrap();
    assert_eq!((excel.title, excel.author), (Some("Excel Spreadsheet".to_string()), None));
    let ppt = extract_metadata("a.ppt", b"", 5).unwrap();
    assert_eq!(ppt.title, Some("PowerPoint Presentation".to_string()));
    let epub = extract_metadata("a.epub", b"", 5).unwrap();
    assert_eq!(epub.title, Some("EPUB Book".to_string()));
    let other = extract_metadata("a.csv", b"\xFF", 5).unwrap();
    assert_eq!((other.title, other.format.as_str(), other.file_size), (None, "unknown", 1));
    assert_eq!(
        extract_metadata("a.txt", b"\xFF", 5).err(),
        Some(C2mdError::Io("stream did not contain valid UTF-8".to_string()))
    );
}

#[test]
fn formats_are_routed_to_their_converters() {
    assert_eq!(converter_for("pdf"), Ok(Format::Pdf));
    assert_eq!(converter_for("doc"), Ok(Format::Office));
    assert_eq!(converter_for("docx"), Ok(Format::Office));
    assert_eq!(converter_for("xls"), Ok(Format::Excel));
    assert_eq!(converter_for("pptx"), Ok(Format::PowerPoint));
    assert_eq!(converter_for("rtf"), Ok(Format::Rtf));
    assert_eq!(converter_for("txt"), Ok(Format::Text));
    assert_eq!(converter_for("htm"), Ok(Format::Html));
    assert_eq!(converter_for("epub"), Ok(Format::Epub));
    assert_eq!(converter_for("csv"), Ok(Format::Csv));
    assert_eq!(converter_for("webp"), Ok(Format::Image));
    assert_eq!(converter_for("md"), Err(C2mdError::UnsupportedFormat("md".to_string())));
    assert_eq!(converter_for("PDF"), Err(C2mdError::UnsupportedFormat("PDF".to_string())));
}

#[test]
fn sources_are_converted_by_format() {
    let c = Converter::new(bare(), args()).unwrap();
    let pdf = c.convert_by_format(Format::Pdf, &source("d/p.pdf", b"%PDF-1.4"), "").unwrap();
    assert!(pdf.ends_with("- **File**: p.pdf\n- **Format**: PDF\n- **Size**: 8 B\n"));
    let text = c.convert_by_format(Format::Text, &source("t.txt", b"TITLE\nbody"), "").unwrap();
    assert_eq!(text, "# TITLE\n\nbody");
    let not_text = c.convert_by_format(Format::Text, &source("t.txt", b"\xC3\x28"), "");
    assert_eq!(not_text, Err(C2mdError::Io("stream did not contain valid UTF-8".to_string())));
    let csv = c.convert_by_format(Format::Csv, &source("t.csv", b"a\n1\n"), "").unwrap();
    assert_eq!(csv, "| a |\n| --- |\n| 1 |\n");
    let html = c.convert_by_format(Format::Html, &source("t.html", b"<p>hi</p>"), "").unwrap();
    assert_eq!(html, "hi\n\n");
    let mut picture = source("art/p.jpg", b"12345");
    picture.image = Some(ImageSource {
        reference: "assets/p.jpg".to_string(),
        ocr_text: None,
        dimensions: Some((4, 3)),
        decode_error: None,
    });
    let image = c.convert_by_format(Format::Image, &picture, "").unwrap();
    assert_eq!(
        image,
        "![Image](assets/p.jpg)\n\n## Image Metadata\n\n- **File**: p.jpg\n- **Format**: JPG\n\
         - **Dimensions**: 4x3\n- **File Size**: 5 B\n\n"
    );
}

#[test]
fn convert_chooses_the_converter_by_extension() {
    let mut options = Options::default();
    options.date = Some("2024-01-01".to_string());
    let out = convert(&source("notes/Plan.TXT", b"GOALS\nship it"), options.clone()).unwrap();
    assert_eq!(out, "---\ntitle: ship it\ndate: 2024-01-01\n---\n\n# GOALS\n\nship it");
    assert_eq!(
        convert(&source("Makefile", b""), options.clone()),
        Err(C2mdError::Generic("Cannot determine file extension".to_string()))
    );
    assert_eq!(
        convert(&source("a.odt", b""), options.clone()),
        Err(C2mdError::UnsupportedFormat("odt".to_string()))
    );
    let sheet = convert(&source("a.xlsx", b""), options).unwrap();
    assert!(sheet.starts_with("---\n---\n\n# Excel Spreadsheet\n"));
}
