use c2md::cli::Args;
use c2md::config::Config;
use c2md::converter::csv::convert_csv;
use c2md::converter::csv::format_grid_table;
use c2md::converter::csv::format_pipe_table;
use c2md::converter::csv::format_simple_table;
use c2md::converter::csv::format_table;
use c2md::error::C2mdError;
use c2md::Options;

fn args() -> Args {
    Options::default().to_args()
}

fn bare(style: &str) -> Config {
    let mut config = Config::default();
    config.frontmatter = "none".to_string();
    config.tables = style.to_string();
    config
}

fn row(cells: &[&str]) -> Vec<String> {
    cells.iter().map(|c| c.to_string()).collect()
}

#[test]
fn test_csv_conversion() {
    let csv_content = "Name,Age,City\nJohn,25,New York\nJane,30,London";
    let output = convert_csv(csv_content, &Config::default(), &args()).unwrap();
    assert!(output.contains("Name"));
    assert!(output.contains("Age"));
    assert!(output.contains("City"));
}

#[test]
fn csv_becomes_a_grid_table() {
    let output = convert_csv("Name,Age\nJohn,25\n", &bare("grid"), &args()).unwrap();
    assert_eq!(output, "| Name | Age |\n| --- | --- |\n| John | 25 |\n");
}

#[test]
fn csv_with_front_matter_and_title() {
    let mut args = args();
    args.title = Some("People".to_string());
    let output = convert_csv("Name,Age\nJohn,25\n", &Config::default(), &args).unwrap();
    assert_eq!(output, "---\ntitle: People\n---\n\n| Name | Age |\n| --- | --- |\n| John | 25 |\n");
}

#[test]
fn csv_quoted_fields_are_read_by_the_parser() {
    let output = convert_csv("a,b\n\"x, y\",\"say \"\"hi\"\"\"\n", &bare("pipe"), &args()).unwrap();
    assert_eq!(output, "| a | b |\n| --- | --- |\n| x, y | say \"hi\" |\n");
}

#[test]
fn csv_with_uneven_rows_is_an_error() {
    let outcome = convert_csv("a,b\n1,2,3\n", &bare("grid"), &args());
    assert!(matches!(outcome, Err(C2mdError::Csv(_))));
}

#[test]
fn simple_table_has_no_outer_bars() {
    let output = convert_csv("Name,Age\nJohn,25\n", &bare("simple"), &args()).unwrap();
    assert_eq!(output, "Name | Age\n--- | ---\nJohn | 25\n");
}

#[test]
fn table_styles() {
    let headers = row(&["h1", "h2", "h3"]);
    let rows = vec![row(&["a", "b", "c"]), row(&["d"])];
    let boxed = "| h1 | h2 | h3 |\n| --- | --- | --- |\n| a | b | c |\n| d |\n";
    assert_eq!(format_grid_table(&headers, &rows), boxed);
    assert_eq!(format_pipe_table(&headers, &rows), boxed);
    assert_eq!(format_table(&headers, &rows, "grid"), boxed);
    assert_eq!(format_table(&headers, &rows, "pipe"), boxed);
    let open = "h1 | h2 | h3\n--- | --- | ---\na | b | c\nd\n";
    assert_eq!(format_simple_table(&headers, &rows), open);
    assert_eq!(format_table(&headers, &rows, "auto"), open);
}

#[test]
fn table_without_columns() {
    let headers: Vec<String> = vec![];
    let rows: Vec<Vec<String>> = vec![];
    assert_eq!(format_grid_table(&headers, &rows), "|\n|\n");
    assert_eq!(format_simple_table(&headers, &rows), "\n\n");
}
