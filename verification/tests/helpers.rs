use c2md::clock::format_timestamp;
use c2md::clock::now;
use c2md::clock::today;
use c2md::error::C2mdError;
use c2md::strings::str_equal;
use c2md::template::create_template_context;
use c2md::template::word_count_text;
use c2md::template::FileInfo;
use c2md::utils::detect_encoding;
use c2md::utils::format_file_size;
use c2md::utils::generate_id;
use c2md::utils::get_file_extension;
use c2md::utils::is_image_file;
use c2md::utils::is_office_file;
use c2md::utils::is_text_file;
use c2md::utils::relative_path;
use c2md::utils::sanitize_filename;
use c2md::utils::slugify_heading;
use c2md::Options;

#[test]
fn sizes_below_a_kilobyte_are_shown_in_bytes() {
    assert_eq!(format_file_size(0), "0 B");
    assert_eq!(format_file_size(7), "7 B");
    assert_eq!(format_file_size(1023), "1023 B");
}

#[test]
fn sizes_are_shown_with_one_decimal_of_the_largest_unit() {
    assert_eq!(format_file_size(1024), "1.0 KB");
    assert_eq!(format_file_size(1536), "1.5 KB");
    assert_eq!(format_file_size(2048), "2.0 KB");
    assert_eq!(format_file_size(1024 * 1024), "1.0 MB");
    assert_eq!(format_file_size(5 * 1024 * 1024 + 512 * 1024), "5.5 MB");
    assert_eq!(format_file_size(1024 * 1024 * 1024), "1.0 GB");
    assert_eq!(format_file_size(1024u64 * 1024 * 1024 * 1024), "1.0 TB");
    assert_eq!(format_file_size(u64::MAX), "16777216.0 TB");
}

#[test]
fn sizes_round_to_the_nearest_tenth_and_to_even_on_a_tie() {
    assert_eq!(format_file_size(1280), "1.2 KB");
    assert_eq!(format_file_size(1281), "1.3 KB");
    assert_eq!(format_file_size(1382), "1.3 KB");
    assert_eq!(format_file_size(1383), "1.4 KB");
    assert_eq!(format_file_size(1408), "1.4 KB");
    assert_eq!(format_file_size(1024 * 1024 - 1), "1024.0 KB");
    assert_eq!(format_file_size(1100), "1.1 KB");
}

#[test]
fn file_names_are_sanitized() {
    assert_eq!(sanitize_filename("my file?.txt"), "my_file_.txt");
    assert_eq!(sanitize_filename("a/b\\c:d"), "a_b_c_d");
    assert_eq!(sanitize_filename("ok-name_1.md"), "ok-name_1.md");
    assert_eq!(sanitize_filename("\u{e9}t\u{e9} 2024"), "\u{e9}t\u{e9}_2024");
    assert_eq!(sanitize_filename(""), "");
}

#[test]
fn encodings_are_told_by_byte_order_mark_or_validity() {
    assert_eq!(detect_encoding(&[0xEF, 0xBB, 0xBF, b'a']).unwrap(), "utf-8");
    assert_eq!(detect_encoding(&[0xFF, 0xFE, 0x41, 0x00]).unwrap(), "utf-16le");
    assert_eq!(detect_encoding(&[0xFE, 0xFF, 0x00, 0x41]).unwrap(), "utf-16be");
    assert_eq!(detect_encoding("gr\u{fc}n".as_bytes()).unwrap(), "utf-8");
    assert_eq!(detect_encoding(&[b'g', b'r', 0xFC, b'n']).unwrap(), "latin1");
    assert_eq!(detect_encoding(&[]).unwrap(), "utf-8");
    assert_eq!(detect_encoding(&[0xFF]).unwrap(), "latin1");
}

#[test]
fn headings_are_slugified_unless_the_strategy_is_none() {
    assert_eq!(slugify_heading("Hello World!", "github"), "hello-world");
    assert_eq!(slugify_heading("Hello World!", "kebab"), "hello-world");
    assert_eq!(slugify_heading("Hello World!", "anything"), "hello-world");
    assert_eq!(slugify_heading("Hello World!", "none"), "Hello World!");
}

#[test]
fn identifiers_are_fresh() {
    let a = generate_id();
    let b = generate_id();
    assert_eq!(a.len(), 36);
    assert_eq!(b.len(), 36);
    assert_ne!(a, b);
}

#[test]
fn extension_is_given_in_lower_case() {
    assert_eq!(get_file_extension("dir/Report.PDF"), Ok("pdf".to_string()));
    assert_eq!(get_file_extension("archive.tar.GZ"), Ok("gz".to_string()));
    assert_eq!(
        get_file_extension("Makefile"),
        Err(C2mdError::Generic("Cannot determine file extension".to_string()))
    );
}

#[test]
fn files_are_sorted_by_extension() {
    assert!(is_image_file("a/photo.PNG"));
    assert!(is_image_file("x.webp"));
    assert!(!is_image_file("x.svg"));
    assert!(!is_image_file("png"));
    assert!(is_office_file("x.DOCX"));
    assert!(is_office_file("x.ppt"));
    assert!(!is_office_file("x.odt"));
    assert!(is_text_file("readme.md"));
    assert!(is_text_file("notes.TXT"));
    assert!(is_text_file("a.asciidoc"));
    assert!(!is_text_file("a.html"));
}

#[test]
fn relative_path_is_the_current_directory() {
    assert_eq!(relative_path("a/b", "c/d"), Ok(".".to_string()));
}

#[test]
fn strings_compare_by_their_text() {
    assert!(str_equal("hard", "hard"));
    assert!(!str_equal("hard", "hard "));
    assert!(!str_equal("hard", "soft"));
    assert!(str_equal("", ""));
}

#[test]
fn every_error_has_its_message() {
    let m = "x".to_string();
    let cases = vec![
        (C2mdError::Io(m.clone()), "IO error: x"),
        (C2mdError::Config(m.clone()), "Configuration error: x"),
        (C2mdError::Conversion(m.clone()), "Conversion error: x"),
        (C2mdError::UnsupportedFormat(m.clone()), "Unsupported format: x"),
        (C2mdError::MissingDependency(m.clone()), "Missing dependency: x"),
        (C2mdError::Ocr(m.clone()), "OCR error: x"),
        (C2mdError::Pandoc(m.clone()), "Pandoc error: x"),
        (C2mdError::LibreOffice(m.clone()), "LibreOffice error: x"),
        (C2mdError::Pdf(m.clone()), "PDF processing error: x"),
        (C2mdError::Image(m.clone()), "Image processing error: x"),
        (C2mdError::Network(m.clone()), "Network error: x"),
        (C2mdError::Serialization(m.clone()), "Serialization error: x"),
        (C2mdError::Json(m.clone()), "JSON error: x"),
        (C2mdError::Regex(m.clone()), "Regex error: x"),
        (C2mdError::Glob(m.clone()), "Glob error: x"),
        (C2mdError::Pattern(m.clone()), "Pattern error: x"),
        (C2mdError::Walkdir(m.clone()), "Walkdir error: x"),
        (C2mdError::Tempfile(m.clone()), "Tempfile error: x"),
        (C2mdError::Notify(m.clone()), "Notify error: x"),
        (C2mdError::Utf8(m.clone()), "UTF-8 error: x"),
        (C2mdError::Csv(m.clone()), "CSV error: x"),
        (C2mdError::ImageError(m.clone()), "Image error: x"),
        (C2mdError::Generic(m.clone()), "Generic error: x"),
    ];
    for (error, message) in cases {
        assert_eq!(error.message(), message);
        assert_eq!(error.detail(), "x");
    }
}

#[test]
fn default_options_stand_for_plain_arguments() {
    let options = Options::default();
    assert_eq!(options.frontmatter, "yaml");
    assert_eq!(options.wrap, "soft");
    assert_eq!(options.width, 100);
    assert_eq!(options.tables, "grid");
    assert_eq!(options.images, "keep");
    assert!(!options.ocr);
    let mut custom = options.clone();
    custom.title = Some("T".to_string());
    custom.width = 72;
    custom.ocr = true;
    let args = custom.to_args();
    assert_eq!(args.title, Some("T".to_string()));
    assert_eq!(args.width, 72);
    assert!(args.ocr);
    assert_eq!(args.to, "gfm");
    assert_eq!(args.pdf_layout, "auto");
    assert_eq!(args.sheets, "all");
    assert_eq!(args.math_block, "$$");
    assert_eq!(args.template, "default");
    assert!(args.inputs.is_empty());
    assert!(args.output.is_none() && args.out_dir.is_none() && args.jobs.is_none());
    assert!(!args.watch && !args.dry_run && !args.preserve_structure);
}

#[test]
fn timestamps_are_shown_to_the_second_in_utc() {
    assert_eq!(format_timestamp(0), Some("1970-01-01 00:00:00 UTC".to_string()));
    assert_eq!(format_timestamp(1431648000), Some("2015-05-15 00:00:00 UTC".to_string()));
    assert_eq!(format_timestamp(-1), Some("1969-12-31 23:59:59 UTC".to_string()));
    assert_eq!(format_timestamp(i64::MAX), None);
}

#[test]
fn the_clock_gives_a_date_and_a_time() {
    let date = today();
    assert_eq!(date.len(), 10);
    let moment = now();
    assert!(moment.starts_with(&date) || moment.len() == 23);
    assert!(moment.ends_with(" UTC"));
}

#[test]
fn template_context_holds_what_it_is_given() {
    let info = FileInfo {
        name: "a.txt".to_string(),
        size: 3,
        format: "text".to_string(),
        modified: "2024-01-01 00:00:00 UTC".to_string(),
    };
    let context = create_template_context(
        Some("t".to_string()),
        None,
        Some("d".to_string()),
        "body".to_string(),
        Some(vec![("k".to_string(), "v".to_string())]),
        Some(info),
    );
    assert_eq!(context.title, Some("t".to_string()));
    assert_eq!(context.author, None);
    assert_eq!(context.date, Some("d".to_string()));
    assert_eq!(context.content, "body");
    assert_eq!(context.metadata, Some(vec![("k".to_string(), "v".to_string())]));
    assert_eq!(context.file_info.unwrap().name, "a.txt");
}

#[test]
fn words_are_counted_for_templates() {
    assert_eq!(word_count_text("one  two\tthree\nfour"), "4");
    assert_eq!(word_count_text("   "), "0");
}

#[test]
fn lines_are_split_as_the_standard_library_splits_them() {
    let samples = [
        "", "a", "a\n", "a\r", "a\r\n", "\n", "\r\n", "\n\n", "a\n\nb", "a\r\r\n", "a\rb\nc",
        "one\r\ntwo\rthree\n\r", "tail without newline\nlast", "\r",
    ];
    for sample in samples {
        let expected: String = sample.lines().map(|l| format!("{}\n", l)).collect();
        assert_eq!(c2md::converter::wrap::wrap_text(sample, usize::MAX), expected);
    }
}

#[test]
fn words_are_split_as_the_standard_library_splits_them() {
    let samples = ["", " ", "a", " a ", "a  b", "\ta\nb\r\nc\u{a0}d\u{2003}e ", "x\u{3000}y", "no-break"];
    for sample in samples {
        assert_eq!(word_count_text(sample), sample.split_whitespace().count().to_string());
        let single_line: String = sample.split_whitespace().collect::<Vec<_>>().join(" ");
        if !single_line.is_empty() {
            let long = format!("{} {}", single_line, single_line);
            let expected: String = long.split(' ').map(|w| format!("{}\n", w)).collect();
            assert_eq!(c2md::converter::wrap::wrap_text(&long, 0), expected);
        }
    }
}

#[test]
fn decimal_numerals_agree_with_the_standard_library() {
    for n in [0u64, 1, 9, 10, 11, 99, 100, 101, 999, 1000, 1023] {
        assert_eq!(format_file_size(n), format!("{} B", n));
    }
}

fn chars(s: &str) -> Vec<char> {
    s.chars().collect()
}

#[test]
fn occurrences_are_replaced_from_left_to_right() {
    let cases = [
        ("aaa", "aa", "b"),
        ("<br<br>>", "<br>", "\n"),
        ("abcabc", "bc", ""),
        ("abc", "abcd", "x"),
        ("", "a", "b"),
        ("xyz", "y", "yy"),
        ("aXbXc", "X", "--"),
    ];
    for (text, from, to) in cases {
        let replaced: String =
            c2md::strings::replace(&chars(text), &chars(from), &chars(to)).into_iter().collect();
        assert_eq!(replaced, text.replace(from, to));
    }
    let kept: String = c2md::strings::replace(&chars("abc"), &[], &chars("-")).into_iter().collect();
    assert_eq!(kept, "abc");
}

#[test]
fn searching_and_trimming_agree_with_the_standard_library() {
    let texts = ["", "a", "abc", "  abc  ", "ababab", "\t x \n", "CHAPTER", "a CHAPTER b"];
    let needles = ["", "a", "ab", "bab", "abc", "CHAPTER", "x", "  "];
    for text in texts {
        let t = chars(text);
        let trimmed: String = c2md::strings::trim(&t).iter().collect();
        assert_eq!(trimmed, text.trim());
        for needle in needles {
            let n = chars(needle);
            assert_eq!(c2md::strings::contains(&t, &n), text.contains(needle));
            assert_eq!(c2md::strings::starts_with(&t, &n), text.starts_with(needle));
            assert_eq!(c2md::strings::chars_equal(&t, &n), text == needle);
        }
        assert_eq!(c2md::strings::contains_char(&t, 'a'), text.contains('a'));
    }
}
