use c2md::cli::Args;
use c2md::config::Config;
use c2md::converter::text::convert_text;
use c2md::converter::text::extract_title_from_text;
use c2md::converter::text::text_markdown;
use c2md::converter::text::text_to_markdown;
use c2md::converter::text::Engine;
use c2md::converter::text::Line;
use c2md::converter::wrap::wrap_text;
use c2md::Options;

fn args() -> Args {
    Options::default().to_args()
}

fn soft() -> Config {
    let mut config = Config::default();
    config.frontmatter = "none".to_string();
    config
}

fn markdown(text: &str) -> String {
    text_to_markdown(text, &soft(), &args()).unwrap()
}

fn chars(s: &str) -> Vec<char> {
    s.chars().collect()
}

#[test]
fn test_text_conversion() {
    let output = convert_text("Hello, World!\nThis is a test document.", &soft(), &args()).unwrap();
    assert!(output.contains("Hello, World!"));
    assert!(output.contains("This is a test document"));
}

#[test]
fn heading_in_capitals_becomes_level_one() {
    assert_eq!(markdown("INTRODUCTION"), "# INTRODUCTION\n\n");
}

#[test]
fn heading_level_follows_the_length_of_the_line() {
    assert_eq!(markdown("A SECTION TITLE OF 25 CHR"), "## A SECTION TITLE OF 25 CHR\n\n");
    let forty = "THIS HEADING IS EXACTLY FORTY CHARS LONG";
    assert_eq!(forty.len(), 40);
    assert_eq!(markdown(forty), format!("### {}\n\n", forty));
    let sixty = "THIS HEADING HAS BEEN PADDED UNTIL IT IS SIXTY CHARS LONG!!!";
    assert_eq!(sixty.len(), 60);
    assert_eq!(markdown(sixty), format!("#### {}\n\n", sixty));
}

#[test]
fn heading_by_marker_word_or_leading_digit() {
    assert_eq!(markdown("The SUMMARY of it"), "# The SUMMARY of it\n\n");
    assert_eq!(markdown("1. first item"), "# 1. first item\n\n");
    assert_eq!(markdown("  2024 in review  "), "# 2024 in review\n\n");
}

#[test]
fn a_line_of_a_hundred_characters_is_no_heading() {
    let line = "A".repeat(100);
    assert_eq!(markdown(&line), line);
    let shorter = "A".repeat(99);
    assert_eq!(markdown(&shorter), format!("#### {}\n\n", shorter));
}

#[test]
fn prose_lines_join_into_one_paragraph() {
    assert_eq!(markdown("first line\nsecond line\nthird\n\n"), "first line second line third\n\n");
}

#[test]
fn paragraph_at_the_end_of_input_is_written_as_it_stands() {
    assert_eq!(markdown("one\ntwo"), "one two");
}

#[test]
fn prose_keeps_the_line_as_it_was_read() {
    assert_eq!(markdown("  indented\nnext  \n\n"), "  indented next  \n\n");
}

#[test]
fn consecutive_bullets_share_one_list() {
    assert_eq!(markdown("- one\n* two\n\nafter"), "\n- one\n- two\n\nafter");
}

#[test]
fn bullet_markers_are_stripped() {
    assert_eq!(markdown("\u{2022} dotted\n-- twice"), "\n- dotted\n- twice\n");
}

#[test]
fn a_bullet_after_prose_closes_the_paragraph() {
    assert_eq!(markdown("some prose\n- item"), "some prose\n\n\n- item\n");
}

#[test]
fn numbered_item_is_rendered_with_one() {
    let tail = "x".repeat(100);
    let line = format!("12.   {}", tail);
    assert_eq!(markdown(&format!("text\n{}", line)), format!("text\n\n\n1. {}\n", tail));
}

#[test]
fn numbered_item_continues_an_open_list() {
    let tail = "y".repeat(100);
    assert_eq!(markdown(&format!("- a\n{}. {}", 7, tail)), format!("\n- a\n1. {}\n", tail));
}

#[test]
fn quote_lines_share_one_block() {
    assert_eq!(markdown("> first\n>> second\nplain"), "\n> first\n> second\n\nplain");
}

#[test]
fn fence_opens_a_code_block_and_contents_are_classified_again() {
    assert_eq!(markdown("```rust\nlet x = 1;\n```"), "```rust\n\nlet x = 1;\n\n# ```\n\n");
}

#[test]
fn second_fence_closes_the_code_block() {
    assert_eq!(markdown("~~~sh\n~~~end\nafter"), "~~~sh\n~~~end\nafter");
}

#[test]
fn line_with_inline_code_stands_alone() {
    assert_eq!(markdown("before\n  use `cargo` here\nafter"), "before\n\n  use `cargo` here\nafter");
}

#[test]
fn blank_line_closes_a_list() {
    assert_eq!(markdown("- a\n\n- b"), "\n- a\n\n\n- b\n");
}

#[test]
fn carriage_returns_before_line_feeds_are_dropped() {
    assert_eq!(markdown("one\r\ntwo\r\n\r\n"), "one two\n\n");
}

#[test]
fn engine_feeds_classified_lines() {
    let engine = Engine::new();
    let engine = engine.feed(Line::Heading { level: 2, text: chars("Title") });
    let engine = engine.feed(Line::Prose(chars("a")));
    let engine = engine.feed(Line::Prose(chars("b")));
    let engine = engine.feed(Line::Quote(chars("q")));
    let engine = engine.feed(Line::Blank);
    let document: String = engine.finish().into_iter().collect();
    assert_eq!(document, "## Title\n\na b\n\n\n> q\n\n");
}

#[test]
fn hard_wrap_is_applied_after_structuring() {
    let mut config = soft();
    config.wrap = "hard".to_string();
    config.width = 10;
    let out = text_to_markdown("alpha beta gamma delta", &config, &args()).unwrap();
    assert_eq!(out, "alpha beta\ngamma\ndelta\n");
}

#[test]
fn wrap_keeps_short_lines_and_refills_long_ones() {
    assert_eq!(wrap_text("aaa bbb ccc\nxy", 7), "aaa bbb\nccc\nxy\n");
}

#[test]
fn wrap_leaves_a_long_word_unsplit() {
    assert_eq!(wrap_text("a verylongword b", 5), "a\nverylongword\nb\n");
}

#[test]
fn wrap_takes_a_word_of_the_full_width() {
    assert_eq!(wrap_text("abcde fghij k", 5), "abcde\nfghij\nk\n");
}

#[test]
fn wrapped_lines_stay_within_the_width() {
    let text = "The quick brown fox jumps over the lazy dog and keeps running \
                through the extraordinarily-long-hyphenated-word forest until night";
    for width in [1usize, 5, 12, 20, 40] {
        let wrapped = wrap_text(text, width);
        for line in wrapped.lines() {
            let single_word = !line.chars().any(|c| c.is_whitespace());
            assert!(line.chars().count() <= width || single_word);
        }
        let words: Vec<&str> = wrapped.split_whitespace().collect();
        let original: Vec<&str> = text.split_whitespace().collect();
        assert_eq!(words, original);
    }
}

#[test]
fn wrap_of_empty_text_is_empty() {
    assert_eq!(wrap_text("", 10), "");
}

#[test]
fn title_is_found_among_the_first_lines() {
    assert_eq!(extract_title_from_text("\nshort\nMy Document\nrest"), Some("My Document".to_string()));
    assert_eq!(extract_title_from_text("a, b and c are here\nno. not this"), None);
    assert_eq!(extract_title_from_text("1\n2\n3\n4\n5\nSixth line title"), None);
}

#[test]
fn text_front_matter_takes_the_title_from_the_text() {
    let config = Config::default();
    let out = text_markdown("Annual Report\n\nbody text", &config, &args(), "2024-05-06");
    assert_eq!(out, "---\ntitle: Annual Report\ndate: 2024-05-06\n---\n\nAnnual Report\n\nbody text");
}

#[test]
fn test_frontmatter_options() {
    let mut args = args();
    args.title = Some("Test Document".to_string());
    args.author = Some("Test Author".to_string());
    args.date = Some("2024-01-01".to_string());
    let output = convert_text("Test content", &Config::default(), &args).unwrap();
    assert!(output.contains("title: Test Document"));
    assert!(output.contains("author: Test Author"));
    assert!(output.contains("date: 2024-01-01"));
}

#[test]
fn front_matter_without_a_date_shows_the_day_of_the_call() {
    let output = convert_text("Test content", &Config::default(), &args()).unwrap();
    let date_line = output.lines().find(|l| l.starts_with("date: ")).unwrap();
    let date = &date_line["date: ".len()..];
    assert_eq!(date.len(), 10);
    assert_eq!(date.matches('-').count(), 2);
}

#[test]
fn heading_shaped_line_inside_a_fence_is_a_heading() {
    assert_eq!(markdown("```rust\nSETUP\nfn main() {}"), "```rust\n\n# SETUP\n\nfn main() {}");
}

#[test]
fn wrapped_text_of_several_lines() {
    let wrapped = wrap_text("short\nthis line is longer than ten\n\nend\r\n", 10);
    assert_eq!(wrapped, "short\nthis line\nis longer\nthan ten\n\nend\n");
}

#[test]
fn lines_are_trimmed_as_the_standard_library_trims_them() {
    for raw in ["  TITLE  ", "\tTITLE\u{a0}", "\u{2003}TITLE\u{3000}\r", "TITLE"] {
        assert_eq!(markdown(raw), "# TITLE\n\n");
    }
    assert_eq!(markdown(" \t\u{a0}\r\n\u{2003}"), "");
}
