//! CSV files: parsed by the `csv` crate, written as a Markdown table.

use vstd::prelude::*;
use crate::chars::option_text;
use crate::chars::push_str;
use crate::chars::string_from_chars;
use crate::cli::Args;
use crate::config::Config;
use crate::converter::frontmatter::push_title_front_matter;
use crate::converter::frontmatter::title_front_matter;
use crate::error::C2mdError;
use crate::strings::str_equal;
use crate::strings::string_views;

verus! {

/// Makes `csv::Error` known as an opaque type: the error of content that
/// cannot be read as CSV.
#[verifier::external_type_specification]
#[verifier::external_body]
pub struct ExCsvError(csv::Error);

/// The texts of the cells of every row.
pub open spec fn row_views(rows: Seq<Vec<String>>) -> Seq<Seq<Seq<char>>> {
    Seq::new(rows.len(), |i: int| string_views(rows[i]@))
}

/// The header and the records that the `csv` crate reads from `content`
/// with its default settings and a header row; `None` where it reports an
/// error.
pub uninterp spec fn csv_table(content: Seq<char>) -> Option<
    (Seq<Seq<char>>, Seq<Seq<Seq<char>>>),
>;

/// Reads `content` with a `csv::Reader` built by `csv::ReaderBuilder` with
/// a header row: the header through `Reader::headers`, then every record
/// of `Reader::records`. The result is what the crate reads, field by
/// field; the first error the crate reports ends the reading.
#[verifier::external_body]
pub(crate) fn read_table(content: &str) -> (r: Result<(Vec<String>, Vec<Vec<String>>), csv::Error>)
    ensures
        r is Ok == csv_table(content@) is Some,
        r is Ok ==> (string_views(r->Ok_0.0@), row_views(r->Ok_0.1@)) == csv_table(
            content@,
        )->Some_0,
{
    let mut reader = csv::ReaderBuilder::new().has_headers(true).from_reader(content.as_bytes());
    let headers: Vec<String> = reader.headers()?.iter().map(|f| f.to_string()).collect();
    let mut rows: Vec<Vec<String>> = Vec::new();
    for record in reader.records() {
        rows.push(record?.iter().map(|f| f.to_string()).collect());
    }
    Ok((headers, rows))
}

/// Renders a `csv::Error` through its `Display` impl.
#[verifier::external_body]
pub(crate) fn error_text(e: &csv::Error) -> (s: String)
{
    e.to_string()
}

/// The cells of a boxed row: each between a space and a space and a bar.
pub open spec fn boxed_cells(cells: Seq<Seq<char>>) -> Seq<char>
    decreases cells.len(),
{
    if cells.len() == 0 {
        Seq::empty()
    } else {
        boxed_cells(cells.drop_last()) + seq![' '] + cells.last() + seq![' ', '|']
    }
}

/// A boxed row: a bar, the boxed cells, a line feed.
pub open spec fn boxed_row(cells: Seq<Seq<char>>) -> Seq<char> {
    seq!['|'] + boxed_cells(cells) + seq!['\n']
}

/// The rule of a boxed table with `n` columns.
pub open spec fn boxed_rule(n: nat) -> Seq<char> {
    boxed_row(Seq::new(n, |i: int| seq!['-', '-', '-']))
}

/// One boxed row after the other.
pub open spec fn boxed_rows(rows: Seq<Seq<Seq<char>>>) -> Seq<char>
    decreases rows.len(),
{
    if rows.len() == 0 {
        Seq::empty()
    } else {
        boxed_rows(rows.drop_last()) + boxed_row(rows.last())
    }
}

/// A table with bars on both sides: the header, the rule, the rows.
pub open spec fn boxed_table(headers: Seq<Seq<char>>, rows: Seq<Seq<Seq<char>>>) -> Seq<char> {
    boxed_row(headers) + boxed_rule(headers.len()) + boxed_rows(rows)
}

/// The cells of an open row, separated by a bar between spaces.
pub open spec fn open_cells(cells: Seq<Seq<char>>) -> Seq<char>
    decreases cells.len(),
{
    if cells.len() == 0 {
        Seq::empty()
    } else if cells.len() == 1 {
        cells[0]
    } else {
        open_cells(cells.drop_last()) + seq![' ', '|', ' '] + cells.last()
    }
}

/// An open row: its cells and a line feed.
pub open spec fn open_row(cells: Seq<Seq<char>>) -> Seq<char> {
    open_cells(cells) + seq!['\n']
}

/// One open row after the other.
pub open spec fn open_rows(rows: Seq<Seq<Seq<char>>>) -> Seq<char>
    decreases rows.len(),
{
    if rows.len() == 0 {
        Seq::empty()
    } else {
        open_rows(rows.drop_last()) + open_row(rows.last())
    }
}

/// A table without outer bars: the header, the rule, the rows.
pub open spec fn open_table(headers: Seq<Seq<char>>, rows: Seq<Seq<Seq<char>>>) -> Seq<char> {
    open_row(headers) + open_row(Seq::new(headers.len(), |i: int| seq!['-', '-', '-']))
        + open_rows(rows)
}

/// The table in the given style: boxed for `grid` and `pipe`, open for
/// every other style.
pub open spec fn table_text(
    headers: Seq<Seq<char>>,
    rows: Seq<Seq<Seq<char>>>,
    style: Seq<char>,
) -> Seq<char> {
    if style == "grid"@ || style == "pipe"@ {
        boxed_table(headers, rows)
    } else {
        open_table(headers, rows)
    }
}

/// Appends a boxed row.
fn push_boxed_row(out: &mut Vec<char>, cells: &Vec<String>)
    ensures
        final(out)@ == old(out)@ + boxed_row(string_views(cells@)),
{
    let ghost before = out@;
    let ghost all = string_views(cells@);
    out.push('|');
    let mut i: usize = 0;
    while i < cells.len()
        invariant
            i <= cells.len(),
            all == string_views(cells@),
            out@ == before + seq!['|'] + boxed_cells(all.take(i as int)),
        decreases cells.len() - i,
    {
        assert(all.take(i + 1).drop_last() =~= all.take(i as int));
        assert(all.take(i + 1).last() == cells[i as int]@);
        let ghost sofar = out@;
        out.push(' ');
        push_str(out, cells[i].as_str());
        out.push(' ');
        out.push('|');
        assert(out@ =~= before + seq!['|'] + (boxed_cells(all.take(i as int)) + seq![' ']
            + cells[i as int]@ + seq![' ', '|']));
        i += 1;
    }
    assert(all.take(cells.len() as int) =~= all);
    out.push('\n');
    assert(out@ =~= before + (seq!['|'] + boxed_cells(all) + seq!['\n']));
}

/// Appends the rule of a boxed table with `n` columns.
fn push_boxed_rule(out: &mut Vec<char>, n: usize)
    ensures
        final(out)@ == old(out)@ + boxed_rule(n as nat),
{
    let ghost before = out@;
    let ghost all = Seq::new(n as nat, |i: int| seq!['-', '-', '-']);
    out.push('|');
    let mut i: usize = 0;
    while i < n
        invariant
            i <= n,
            all == Seq::new(n as nat, |i: int| seq!['-', '-', '-']),
            out@ == before + seq!['|'] + boxed_cells(all.take(i as int)),
        decreases n - i,
    {
        assert(all.take(i + 1).drop_last() =~= all.take(i as int));
        assert(all.take(i + 1).last() == seq!['-', '-', '-']);
        out.push(' ');
        out.push('-');
        out.push('-');
        out.push('-');
        out.push(' ');
        out.push('|');
        assert(out@ =~= before + seq!['|'] + (boxed_cells(all.take(i as int)) + seq![' ']
            + seq!['-', '-', '-'] + seq![' ', '|']));
        i += 1;
    }
    assert(all.take(n as int) =~= all);
    out.push('\n');
    assert(out@ =~= before + (seq!['|'] + boxed_cells(all) + seq!['\n']));
}

/// Writes a table with bars on both sides of every row.
fn boxed(headers: &Vec<String>, rows: &Vec<Vec<String>>) -> (out: Vec<char>)
    ensures
        out@ == boxed_table(string_views(headers@), row_views(rows@)),
{
    let mut out: Vec<char> = Vec::new();
    push_boxed_row(&mut out, headers);
    push_boxed_rule(&mut out, headers.len());
    let ghost head = out@;
    let ghost all = row_views(rows@);
    let mut i: usize = 0;
    while i < rows.len()
        invariant
            i <= rows.len(),
            all == row_views(rows@),
            out@ == head + boxed_rows(all.take(i as int)),
        decreases rows.len() - i,
    {
        assert(all.take(i + 1).drop_last() =~= all.take(i as int));
        assert(all.take(i + 1).last() == string_views(rows[i as int]@));
        push_boxed_row(&mut out, &rows[i]);
        assert(out@ =~= head + (boxed_rows(all.take(i as int)) + boxed_row(
            string_views(rows[i as int]@),
        )));
        i += 1;
    }
    assert(all.take(rows.len() as int) =~= all);
    assert(head =~= boxed_row(string_views(headers@)) + boxed_rule(headers@.len()));
    out
}

/// Writes a table in the grid style: a bar before and after every cell.
pub fn format_grid_table(headers: &Vec<String>, rows: &Vec<Vec<String>>) -> (r: String)
    ensures
        r@ == boxed_table(string_views(headers@), row_views(rows@)),
{
    string_from_chars(boxed(headers, rows).as_slice())
}

/// Writes a table in the pipe style, which reads like the grid style.
pub fn format_pipe_table(headers: &Vec<String>, rows: &Vec<Vec<String>>) -> (r: String)
    ensures
        r@ == boxed_table(string_views(headers@), row_views(rows@)),
{
    string_from_chars(boxed(headers, rows).as_slice())
}

/// Appends an open row.
fn push_open_row(out: &mut Vec<char>, cells: &Vec<String>)
    ensures
        final(out)@ == old(out)@ + open_row(string_views(cells@)),
{
    let ghost before = out@;
    let ghost all = string_views(cells@);
    let mut i: usize = 0;
    assert(out@ =~= before + open_cells(all.take(0)));
    while i < cells.len()
        invariant
            i <= cells.len(),
            all == string_views(cells@),
            out@ == before + open_cells(all.take(i as int)),
        decreases cells.len() - i,
    {
        assert(all.take(i + 1).drop_last() =~= all.take(i as int));
        assert(all.take(i + 1).last() == cells[i as int]@);
        assert(all.take(i + 1)[0] == all[0]);
        if i > 0 {
            out.push(' ');
            out.push('|');
            out.push(' ');
        }
        push_str(out, cells[i].as_str());
        assert(out@ =~= before + open_cells(all.take(i + 1)));
        i += 1;
    }
    assert(all.take(cells.len() as int) =~= all);
    out.push('\n');
    assert(out@ =~= before + (open_cells(all) + seq!['\n']));
}

/// Appends the rule of an open table with `n` columns.
fn push_open_rule(out: &mut Vec<char>, n: usize)
    ensures
        final(out)@ == old(out)@ + open_row(Seq::new(n as nat, |i: int| seq!['-', '-', '-'])),
{
    let ghost before = out@;
    let ghost all = Seq::new(n as nat, |i: int| seq!['-', '-', '-']);
    let mut i: usize = 0;
    assert(out@ =~= before + open_cells(all.take(0)));
    while i < n
        invariant
            i <= n,
            all == Seq::new(n as nat, |i: int| seq!['-', '-', '-']),
            out@ == before + open_cells(all.take(i as int)),
        decreases n - i,
    {
        assert(all.take(i + 1).drop_last() =~= all.take(i as int));
        assert(all.take(i + 1).last() == seq!['-', '-', '-']);
        assert(all.take(i + 1)[0] == seq!['-', '-', '-']);
        if i > 0 {
            out.push(' ');
            out.push('|');
            out.push(' ');
        }
        out.push('-');
        out.push('-');
        out.push('-');
        assert(out@ =~= before + open_cells(all.take(i + 1)));
        i += 1;
    }
    assert(all.take(n as int) =~= all);
    out.push('\n');
    assert(out@ =~= before + (open_cells(all) + seq!['\n']));
}

/// Writes a table in the simple style: cells separated by bars, none at
/// the ends of a row.
pub fn format_simple_table(headers: &Vec<String>, rows: &Vec<Vec<String>>) -> (r: String)
    ensures
        r@ == open_table(string_views(headers@), row_views(rows@)),
{
    let mut out: Vec<char> = Vec::new();
    push_open_row(&mut out, headers);
    push_open_rule(&mut out, headers.len());
    let ghost head = out@;
    let ghost all = row_views(rows@);
    let mut i: usize = 0;
    while i < rows.len()
        invariant
            i <= rows.len(),
            all == row_views(rows@),
            out@ == head + open_rows(all.take(i as int)),
        decreases rows.len() - i,
    {
        assert(all.take(i + 1).drop_last() =~= all.take(i as int));
        assert(all.take(i + 1).last() == string_views(rows[i as int]@));
        push_open_row(&mut out, &rows[i]);
        assert(out@ =~= head + (open_rows(all.take(i as int)) + open_row(
            string_views(rows[i as int]@),
        )));
        i += 1;
    }
    assert(all.take(rows.len() as int) =~= all);
    assert(head =~= open_row(string_views(headers@)) + open_row(
        Seq::new(headers@.len(), |i: int| seq!['-', '-', '-']),
    ));
    string_from_chars(out.as_slice())
}

/// Writes a table in the given style: `grid` and `pipe` put a bar before
/// and after every cell, every other style only between cells.
pub fn format_table(headers: &Vec<String>, rows: &Vec<Vec<String>>, style: &str) -> (r: String)
    ensures
        r@ == table_text(string_views(headers@), row_views(rows@), style@),
{
    if str_equal(style, "grid") {
        format_grid_table(headers, rows)
    } else if str_equal(style, "pipe") {
        format_pipe_table(headers, rows)
    } else {
        format_simple_table(headers, rows)
    }
}

/// The Markdown for CSV content: front matter with the title where one is
/// given, then the table in the configured style; `None` where the content
/// cannot be read as CSV.
pub open spec fn csv_document(content: Seq<char>, config: Config, args: Args) -> Option<Seq<char>> {
    match csv_table(content) {
        Some(table) => Some(
            title_front_matter(config.wants_frontmatter(), option_text(args.title)) + table_text(
                table.0,
                table.1,
                config.tables@,
            ),
        ),
        None => None,
    }
}

/// Converts the content of a CSV file to a Markdown table with the first
/// row as its header. Fails with a CSV error exactly when the content
/// cannot be read as CSV.
pub fn convert_csv(content: &str, config: &Config, args: &Args) -> (r: Result<String, C2mdError>)
    ensures
        r is Ok == csv_document(content@, *config, *args) is Some,
        r is Ok ==> r->Ok_0@ == csv_document(content@, *config, *args)->Some_0,
        r is Err ==> r->Err_0 is Csv,
{
    let mut out: Vec<char> = Vec::new();
    push_title_front_matter(&mut out, config, &args.title);
    match read_table(content) {
        Ok((headers, rows)) => {
            let table = format_table(&headers, &rows, config.tables.as_str());
            push_str(&mut out, table.as_str());
            Ok(string_from_chars(out.as_slice()))
        },
        Err(e) => Err(C2mdError::Csv(error_text(&e))),
    }
}

} // verus!
