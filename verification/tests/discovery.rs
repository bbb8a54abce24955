use c2md::cli::Args;
use c2md::config::Config;
use c2md::converter::count_failures;
use c2md::converter::router::ImageSource;
use c2md::converter::router::Source;
use c2md::converter::watch_directories;
use c2md::converter::Converter;
use c2md::converter::InputSource;
use c2md::converter::RunMode;
use c2md::converter::WatchAction;
use c2md::converter::WatchEvent;
use c2md::converter::WatchSignal;
use c2md::discovery::filter_candidates;
use c2md::discovery::is_allowed_extension;
use c2md::discovery::is_glob_pattern;
use c2md::discovery::is_ignored;
use c2md::discovery::should_process;
use c2md::error::C2mdError;
use c2md::paths::make_relative;
use c2md::Options;

fn args() -> Args {
    Options::default().to_args()
}

fn converter(args: Args) -> Converter {
    Converter::new(Config::default(), args).unwrap()
}

fn strings(items: &[&str]) -> Vec<String> {
    items.iter().map(|s| s.to_string()).collect()
}

fn text_source(path: &str, content: &str) -> Source {
    Source { path: path.to_string(), content: content.as_bytes().to_vec(), modified: 0, image: None }
}

#[test]
fn allow_list_holds_the_twenty_extensions() {
    let allowed = [
        "pdf", "doc", "docx", "xls", "xlsx", "ppt", "pptx", "rtf", "txt", "html", "htm", "epub",
        "csv", "jpg", "jpeg", "png", "gif", "bmp", "tiff", "webp",
    ];
    for ext in allowed {
        assert!(is_allowed_extension(ext));
    }
    for ext in ["md", "exe", "", "TXT", "tif", "txt "] {
        assert!(!is_allowed_extension(ext));
    }
}

#[test]
fn extension_is_matched_in_any_case() {
    let ignore = Config::default().ignore;
    assert!(should_process("notes/Report.TXT", &ignore));
    assert!(should_process("photo.JpEg", &ignore));
    assert!(!should_process("notes/report.md", &ignore));
    assert!(!should_process("Makefile", &ignore));
    assert!(!should_process(".txt", &ignore));
}

#[test]
fn ignore_patterns_exclude_matching_paths() {
    let ignore = Config::default().ignore;
    assert!(!should_process("web/node_modules/pkg/readme.txt", &ignore));
    assert!(!should_process("repo/.git/info/notes.txt", &ignore));
    assert!(should_process("web/src/readme.txt", &ignore));
    assert!(is_ignored("a/b.txt", &strings(&["*.txt"])));
    assert!(!is_ignored("a/b.txt", &strings(&["*.csv", "b.txt"])));
}

#[test]
fn a_malformed_ignore_pattern_excludes_nothing() {
    let ignore = strings(&["a/**b", "[", "***"]);
    assert!(!is_ignored("a/xb", &ignore));
    assert!(should_process("a/xb.txt", &ignore));
}

#[test]
fn filtering_keeps_order_and_is_idempotent() {
    let ignore = strings(&["**/skip/**"]);
    let candidates = strings(&["b.txt", "a.bin", "x/skip/c.txt", "a.csv", "b.txt", "noext"]);
    let once = filter_candidates(&candidates, &ignore);
    assert_eq!(once, strings(&["b.txt", "a.csv", "b.txt"]));
    let twice = filter_candidates(&once, &ignore);
    assert_eq!(twice, once);
}

#[test]
fn glob_patterns_are_told_from_literal_paths() {
    assert!(is_glob_pattern("docs/*.txt"));
    assert!(is_glob_pattern("file?.txt"));
    assert!(!is_glob_pattern("docs/file.txt"));
    assert!(!is_glob_pattern("docs/[ab].txt"));
}

#[test]
fn input_paths_are_collected_in_order() {
    let c = converter(args());
    let sources = vec![
        InputSource::Matches(strings(&["m/a.txt", "m/b.bin"])),
        InputSource::Missing,
        InputSource::File("given.bin".to_string()),
        InputSource::Unreadable("permission denied".to_string()),
        InputSource::File("given.csv".to_string()),
        InputSource::Directory(strings(&["d/node_modules/x.txt", "d/y.PDF"])),
    ];
    let paths = c.collect_input_paths(&sources).unwrap();
    assert_eq!(paths, strings(&["m/a.txt", "given.csv", "d/y.PDF"]));
    let ignore = Config::default().ignore;
    assert!(paths.iter().all(|p| should_process(p, &ignore)));
}

#[test]
fn run_without_inputs_fails() {
    let c = converter(args());
    let outcome = c.run_mode(&vec![]);
    assert_eq!(outcome, Err(C2mdError::Generic("No input files found".to_string())));
    assert_eq!(outcome.unwrap_err().message(), "Generic error: No input files found");
}

#[test]
fn run_mode_follows_the_options() {
    let paths = strings(&["a.txt"]);
    assert_eq!(converter(args()).run_mode(&paths), Ok(RunMode::Batch));
    let mut watching = args();
    watching.watch = true;
    assert_eq!(converter(watching).run_mode(&paths), Ok(RunMode::Watch));
    let mut dry = args();
    dry.watch = true;
    dry.dry_run = true;
    assert_eq!(converter(dry).run_mode(&paths), Ok(RunMode::DryRun));
}

#[test]
fn output_goes_to_the_standard_output_by_default() {
    let c = converter(args());
    assert_eq!(c.determine_output_path("docs/a.txt"), Ok("-".to_string()));
}

#[test]
fn explicit_output_wins() {
    let mut a = args();
    a.output = Some("result.md".to_string());
    a.out_dir = Some("out".to_string());
    let c = converter(a);
    assert_eq!(c.determine_output_path("docs/a.txt"), Ok("result.md".to_string()));
    assert_eq!(c.determine_output_path("other/b.pdf"), Ok("result.md".to_string()));
}

#[test]
fn output_directory_is_flat_unless_the_tree_is_mirrored() {
    let mut a = args();
    a.out_dir = Some("out".to_string());
    let flat = converter(a.clone());
    assert_eq!(flat.determine_output_path("docs/sub/a.txt"), Ok("out/a.md".to_string()));
    assert_eq!(flat.determine_output_path("archive.tar.gz"), Ok("out/archive.tar.md".to_string()));
    a.preserve_structure = true;
    let mirrored = converter(a);
    assert_eq!(mirrored.determine_output_path("docs/sub/a.txt"), Ok("out/docs/sub/a.md".to_string()));
    assert_eq!(mirrored.determine_output_path("a.txt"), Ok("out/a.md".to_string()));
}

#[test]
fn parent_of_an_absolute_input_is_mirrored_under_the_output_directory() {
    let mut a = args();
    a.out_dir = Some("out".to_string());
    a.preserve_structure = true;
    let c = converter(a.clone());
    assert_eq!(c.determine_output_path("/srv/in/a.txt"), Ok("out/srv/in/a.md".to_string()));
    assert_eq!(c.determine_output_path("/a.txt"), Ok("out/a.md".to_string()));
    assert_eq!(c.determine_output_path("//srv//in/a.txt"), Ok("out/srv//in/a.md".to_string()));
    for input in ["/srv/in/a.txt", "/a.txt", "///deep/er/b.csv", "rel/c.pdf"] {
        let destination = c.determine_output_path(input).unwrap();
        assert!(std::path::Path::new(&destination).starts_with("out"));
    }
    a.out_dir = Some("/var/out".to_string());
    let absolute = converter(a.clone());
    assert_eq!(absolute.determine_output_path("/srv/in/a.txt"), Ok("/var/out/srv/in/a.md".to_string()));
    a.preserve_structure = false;
    let flat = converter(a);
    assert_eq!(flat.determine_output_path("/srv/in/a.txt"), Ok("/var/out/a.md".to_string()));
    let plan = c.show_plan(&strings(&["/srv/in/a.txt"])).unwrap();
    assert_eq!(plan, "Conversion plan:\n  /srv/in/a.txt -> out/srv/in/a.md\n");
}

#[test]
fn paths_are_made_relative_by_dropping_leading_separators() {
    assert_eq!(make_relative("/srv/in"), "srv/in");
    assert_eq!(make_relative("///srv"), "srv");
    assert_eq!(make_relative("/"), "");
    assert_eq!(make_relative(""), "");
    assert_eq!(make_relative("srv/in/"), "srv/in/");
    assert_eq!(make_relative("./x"), "./x");
}

#[test]
fn input_without_a_stem_has_no_destination() {
    let mut a = args();
    a.out_dir = Some("out".to_string());
    let c = converter(a);
    let outcome = c.determine_output_path("docs/..");
    assert_eq!(outcome, Err(C2mdError::Generic("Invalid file name".to_string())));
}

#[test]
fn output_path_is_a_function_of_its_arguments() {
    let mut a = args();
    a.out_dir = Some("out".to_string());
    a.preserve_structure = true;
    let first = converter(a.clone());
    let second = converter(a);
    for input in ["x/y/z.txt", "plain.csv", "..", ""] {
        assert_eq!(first.determine_output_path(input), first.determine_output_path(input));
        assert_eq!(first.determine_output_path(input), second.determine_output_path(input));
    }
}

#[test]
fn test_dry_run() {
    let c = converter(args());
    let plan = c.show_plan(&strings(&["test.txt"])).unwrap();
    assert!(plan.contains("Conversion plan"));
    assert_eq!(plan, "Conversion plan:\n  test.txt -> -\n");
}

#[test]
fn plan_lists_every_destination() {
    let mut a = args();
    a.out_dir = Some("out".to_string());
    let c = converter(a);
    let plan = c.show_plan(&strings(&["in/a.txt", "in/b.csv"])).unwrap();
    assert_eq!(plan, "Conversion plan:\n  in/a.txt -> out/a.md\n  in/b.csv -> out/b.md\n");
    assert!(c.show_plan(&strings(&["in/a.txt", ".."])).is_err());
}

#[test]
fn test_batch_conversion() {
    let mut a = args();
    a.out_dir = Some("output".to_string());
    let c = converter(a);
    let sources = vec![text_source("input/test1.txt", "Content 1"), text_source("input/test2.txt", "Content 2")];
    let report = c.batch_convert(&sources);
    assert_eq!(report.failures, 0);
    let outputs: Vec<String> =
        report.outcomes.iter().map(|o| o.as_ref().unwrap().output_path.clone()).collect();
    assert_eq!(outputs, strings(&["output/test1.md", "output/test2.md"]));
}

#[test]
fn one_failure_does_not_touch_the_other_files() {
    let mut a = args();
    a.out_dir = Some("out".to_string());
    a.date = Some("2024-01-01".to_string());
    let c = converter(a);
    let sources = vec![
        text_source("one.txt", "plain words"),
        text_source("two.csv", "a,b\n1,2,3\n"),
        text_source("three.txt", "more plain words"),
    ];
    let report = c.batch_convert(&sources);
    assert_eq!(report.outcomes.len(), 3);
    assert_eq!(report.failures, 1);
    assert_eq!(count_failures(&report.outcomes), 1);
    let first = report.outcomes[0].as_ref().unwrap();
    assert_eq!(first.output_path, "out/one.md");
    assert_eq!(first.markdown, "---\ntitle: plain words\ndate: 2024-01-01\n---\n\nplain words");
    assert!(matches!(report.outcomes[1], Err(C2mdError::Csv(_))));
    let third = report.outcomes[2].as_ref().unwrap();
    assert_eq!(third.output_path, "out/three.md");
    assert_eq!(
        third.markdown,
        "---\ntitle: more plain words\ndate: 2024-01-01\n---\n\nmore plain words"
    );
    let alone = c.convert_single_file(&sources[2]).unwrap();
    assert_eq!(alone.markdown, third.markdown);
}

#[test]
fn failures_are_counted() {
    let outcomes: Vec<Result<(), C2mdError>> = vec![
        Ok(()),
        Err(C2mdError::Io("gone".to_string())),
        Err(C2mdError::Conversion("bad".to_string())),
        Ok(()),
    ];
    assert_eq!(count_failures(&outcomes), 2);
    let none: Vec<Result<(), C2mdError>> = vec![];
    assert_eq!(count_failures(&none), 0);
}

#[test]
fn worker_count_follows_the_options() {
    let mut a = args();
    a.jobs = Some(3);
    assert_eq!(converter(a).worker_count(), 3);
    assert!(converter(args()).worker_count() >= 1);
}

#[test]
fn watched_directories_are_the_distinct_parents() {
    let dirs = watch_directories(&strings(&["d/a.txt", "d/b.txt", "e/c.txt", "x.txt", "e/d.txt"]));
    assert_eq!(dirs, strings(&["d", "e", ""]));
    assert_eq!(watch_directories(&strings(&["/"])), Vec::<String>::new());
}

#[test]
fn modification_of_a_rejected_path_converts_nothing() {
    let c = converter(args());
    let event = WatchSignal::Event(WatchEvent { modified: true, paths: strings(&["notes.xyz"]) });
    match c.watch_step(&event) {
        WatchAction::Reconvert(paths) => assert!(paths.is_empty()),
        WatchAction::Stop(_) => panic!("the loop must go on"),
    }
}

#[test]
fn modification_converts_the_accepted_paths_again() {
    let c = converter(args());
    let event = WatchSignal::Event(WatchEvent {
        modified: true,
        paths: strings(&["a.txt", "b.xyz", "node_modules/c.txt", "c.csv"]),
    });
    match c.watch_step(&event) {
        WatchAction::Reconvert(paths) => assert_eq!(paths, strings(&["a.txt", "c.csv"])),
        WatchAction::Stop(_) => panic!("the loop must go on"),
    }
}

#[test]
fn other_events_are_ignored_and_errors_stop_the_loop() {
    let c = converter(args());
    let created = WatchSignal::Event(WatchEvent { modified: false, paths: strings(&["a.txt"]) });
    match c.watch_step(&created) {
        WatchAction::Reconvert(paths) => assert!(paths.is_empty()),
        WatchAction::Stop(_) => panic!("the loop must go on"),
    }
    match c.watch_step(&WatchSignal::WatcherError("backend".to_string())) {
        WatchAction::Stop(error) => assert_eq!(error, C2mdError::Notify("backend".to_string())),
        WatchAction::Reconvert(_) => panic!("a watcher error is fatal"),
    }
    match c.watch_step(&WatchSignal::Disconnected("closed".to_string())) {
        WatchAction::Stop(error) => {
            assert_eq!(error, C2mdError::Notify("closed".to_string()));
            assert_eq!(error.message(), "Notify error: closed");
        }
        WatchAction::Reconvert(_) => panic!("a closed channel is fatal"),
    }
}

#[test]
fn single_file_conversion_carries_the_template_context() {
    let mut a = args();
    a.title = Some("T".to_string());
    a.date = Some("2024-01-01".to_string());
    let c = converter(a);
    let converted = c.convert_single_file(&text_source("dir/note.txt", "hello there")).unwrap();
    assert_eq!(converted.output_path, "-");
    assert_eq!(converted.markdown, "---\ntitle: T\ndate: 2024-01-01\n---\n\nhello there");
    assert_eq!(converted.template, Some("default".to_string()));
    let context = converted.context.unwrap();
    assert_eq!(context.title, Some("T".to_string()));
    assert_eq!(context.content, converted.markdown);
    let info = context.file_info.unwrap();
    assert_eq!(info.name, "note.txt");
    assert_eq!(info.size, 11);
    assert_eq!(info.format, "text");
    let metadata = context.metadata.unwrap();
    assert_eq!(metadata[0], ("title".to_string(), "hello there".to_string()));
    assert!(metadata.contains(&("words".to_string(), "2".to_string())));
    assert!(metadata.contains(&("file_size".to_string(), "11 B".to_string())));
    assert_eq!(metadata.last().unwrap(), &("format".to_string(), "text".to_string()));
}

#[test]
fn single_file_conversion_without_front_matter_has_no_template() {
    let mut a = args();
    a.frontmatter = "none".to_string();
    let c = converter(a);
    let converted = c.convert_single_file_at(&text_source("n.txt", "hi"), "2024-02-03", String::new()).unwrap();
    assert_eq!(converted.template, None);
    assert!(converted.context.is_none());
    assert_eq!(converted.markdown, "---\ndate: 2024-02-03\n---\n\nhi");
}

#[test]
fn single_file_conversion_reports_the_first_failing_step() {
    let c = converter(args());
    let unsound = c.convert_single_file(&text_source("a.pdf", "not a pdf at all"));
    assert_eq!(unsound.err(), Some(C2mdError::Generic("Invalid file: Invalid PDF file".to_string())));
    let short = c.convert_single_file(&text_source("a.pdf", "ab"));
    assert_eq!(short.err(), Some(C2mdError::Io("failed to fill whole buffer".to_string())));
    let no_extension = c.convert_single_file(&text_source("README", "sixteen bytes or more of text"));
    assert_eq!(no_extension.err(), Some(C2mdError::Generic("Cannot detect file format".to_string())));
    let unsupported = c.convert_single_file(&text_source("a.md", "sixteen bytes or more of text"));
    assert_eq!(unsupported.err(), Some(C2mdError::UnsupportedFormat("md".to_string())));
    let image = c.convert_single_file(&text_source("a.png", "whatever"));
    assert!(matches!(image, Err(C2mdError::Image(_))));
    let broken = Source {
        path: "a.png".to_string(),
        content: vec![1, 2, 3],
        modified: 0,
        image: Some(ImageSource {
            reference: "a.png".to_string(),
            ocr_text: None,
            dimensions: None,
            decode_error: Some("bad header".to_string()),
        }),
    };
    assert_eq!(
        c.convert_single_file(&broken).err(),
        Some(C2mdError::Generic("Invalid file: Invalid image: bad header".to_string()))
    );
}

#[test]
fn a_batch_of_failures_is_still_a_finished_batch() {
    let c = converter(args());
    let sources = vec![text_source("a.csv", "a,b\n1\n"), text_source("b.pdf", "no signature")];
    let report = c.batch_convert(&sources);
    assert_eq!(report.failures, 2);
    assert!(report.all_failed());
    assert_eq!(report.result(), Ok(()));
    let empty = c.batch_convert(&vec![]);
    assert_eq!(empty.failures, 0);
    assert!(!empty.all_failed());
}

#[test]
fn csv_failure_carries_the_message_of_the_parser() {
    let c = converter(args());
    let outcome = c.convert_single_file(&text_source("two.csv", "a,b\n1,2,3\n"));
    match outcome {
        Err(C2mdError::Csv(message)) => assert!(message.contains("2 fields")),
        _ => panic!("expected a CSV error"),
    }
}
