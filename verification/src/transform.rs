//! The whole run: filter what was read, and encode what is kept.
//!
//! Parsing the input and writing the new workbook to a file are the
//! caller's part: `transform` takes what the parser read, and `written_at`
//! says what the run amounts to once the file has been written.

use vstd::prelude::*;
use rust_xlsxwriter::Workbook;
use crate::error::ErrorKind;
use crate::grid::{
    column_missing, filter_rows, is_column, kept_rows, kept_rows_with_column,
    no_rows_of_empty_grid, no_rows_without_column, row_kept, CellText, Grid, GridText, RowText,
};
use crate::reader::{grid_of_read, read_model};
use crate::writer::{
    book_sheets, cells_of, encoded, encoding_of, no_rows_no_cells, refusal_of, rows_fit,
    write_rows,
};

verus! {

/// What a successful run hands back.
#[derive(Debug, Clone, PartialEq, Eq)]
pub struct Transformed {
    /// The kept rows, as they were written.
    pub rows: Grid,
    /// The bytes of the new workbook: the encoding of a workbook of one
    /// worksheet, which holds `rows`.
    pub workbook: Vec<u8>,
    /// `ColumnNotFound` where the header lacked the column, to be reported;
    /// `None` otherwise.
    pub condition: Option<ErrorKind>,
}

/// `outcome` is what encoding `book` makes of a run: a success that
/// carries the bytes, or `WriteError` with the writer's message.
pub open spec fn run_encodes(book: Workbook, outcome: Result<Transformed, ErrorKind>) -> bool {
    match encoded(book) {
        Ok(bytes) => outcome matches Ok(out) && out.workbook@ == bytes,
        Err(message) => outcome matches Err(ErrorKind::WriteError(detail)) && detail@ == message,
    }
}

/// `outcome` is what a run on the grid `cells` ends in.
///
/// Where the writer refuses a cell of the kept rows, the run fails with
/// `WriteError` and the writer's message for the first such cell. Otherwise
/// a workbook of one worksheet, which holds the kept rows, is encoded: the
/// run succeeds with its bytes, or fails with `WriteError` and the message
/// of the encoding. A success carries exactly the kept rows, and reports the
/// column as missing exactly when it is.
pub open spec fn transformed_from(
    cells: GridText,
    name: CellText,
    prefix: CellText,
    outcome: Result<Transformed, ErrorKind>,
) -> bool {
    let kept = kept_rows(cells, name, prefix);
    &&& outcome matches Ok(out) ==> {
        &&& out.rows.deep_view() == kept
        &&& rows_fit(kept)
        &&& out.condition is Some <==> column_missing(cells, name)
        &&& out.condition matches Some(condition) ==> (condition matches ErrorKind::ColumnNotFound(
            missing,
        ) && missing@ == name)
    }
    &&& outcome matches Err(error) ==> error is WriteError
    &&& !rows_fit(kept) ==> (outcome matches Err(ErrorKind::WriteError(detail)) && detail@
        == refusal_of(kept))
    &&& rows_fit(kept) ==> exists|book: Workbook|
        book_sheets(book) == seq![cells_of(kept)] && #[trigger] run_encodes(book, outcome)
}

/// `outcome` is what a run on what was read ends in: `ParseError` with the
/// parser's message, `NoSheetError`, or a run on the worksheet's grid.
pub open spec fn run_outcome(
    read: Result<Option<GridText>, CellText>,
    name: CellText,
    prefix: CellText,
    outcome: Result<Transformed, ErrorKind>,
) -> bool {
    match read {
        Ok(Some(cells)) => transformed_from(cells, name, prefix, outcome),
        Ok(None) => outcome matches Err(error) && error is NoSheetError,
        Err(message) => outcome matches Err(ErrorKind::ParseError(detail)) && detail@ == message,
    }
}

/// Filters `grid` and encodes the kept rows as a new workbook.
pub fn transform_grid(grid: &Grid, column_name: &str, prefix: &str) -> (outcome: Result<
    Transformed,
    ErrorKind,
>)
    ensures
        transformed_from(grid.deep_view(), column_name@, prefix@, outcome),
{
    let kept = filter_rows(grid, column_name, prefix);
    let written = write_rows(&kept.rows);
    let ghost rows = kept.rows.deep_view();
    let outcome = match written {
        Err(error) => Err(error),
        Ok(workbook) => Ok(Transformed { rows: kept.rows, workbook, condition: kept.condition }),
    };
    proof {
        if rows_fit(rows) {
            let book = choose|book: Workbook|
                book_sheets(book) == seq![cells_of(rows)] && #[trigger] encoding_of(book, written);
            assert(run_encodes(book, outcome));
        }
    }
    outcome
}

/// Takes what the parser read of the first worksheet of the input, keeps
/// the data rows whose cell under the column named `column_name` starts with
/// `prefix`, and encodes them, without the header, as a new workbook.
///
/// Fails with `ParseError` where the input could not be parsed, with
/// `NoSheetError` where the workbook has no worksheet, and with `WriteError`
/// where the kept rows cannot be written. A header without the column is no
/// failure: the new workbook then holds no rows.
pub fn transform(read: Result<Option<Grid>, String>, column_name: &str, prefix: &str) -> (outcome:
    Result<Transformed, ErrorKind>)
    ensures
        run_outcome(read_model(read), column_name@, prefix@, outcome),
{
    match grid_of_read(read) {
        Err(error) => Err(error),
        Ok(grid) => transform_grid(&grid, column_name, prefix),
    }
}

/// What the caller is told once the new workbook has been written to
/// `output_path`, or could not be: the path, or `WriteError` with the
/// system's message.
pub fn written_at(output_path: String, written: Result<(), String>) -> (told: Result<
    String,
    ErrorKind,
>)
    ensures
        match written {
            Ok(_) => told == Ok::<String, ErrorKind>(output_path),
            Err(message) => told matches Err(ErrorKind::WriteError(detail)) && detail@ == message@,
        },
{
    match written {
        Ok(_) => Ok(output_path),
        Err(message) => Err(ErrorKind::WriteError(message)),
    }
}

/// A successful run on a grid whose header first has the column at `column`
/// hands back exactly the rows after the header whose cell at `column`
/// starts with `prefix`, in the grid's order, and has nothing to report.
pub proof fn run_keeps_matching_rows(
    cells: GridText,
    name: CellText,
    prefix: CellText,
    column: int,
    out: Transformed,
)
    requires
        cells.len() > 0,
        is_column(cells[0], name, column),
        transformed_from(cells, name, prefix, Ok(out)),
    ensures
        out.rows.deep_view() == cells.skip(1).filter(|row: RowText| row_kept(row, column, prefix)),
        out.condition is None,
{
    kept_rows_with_column(cells, name, prefix, column);
}

/// A run on a grid whose header lacks the column is not refused by the
/// writer. Where it succeeds it hands back no rows, for a worksheet without
/// cells, and reports the column as missing.
pub proof fn run_without_column(
    cells: GridText,
    name: CellText,
    prefix: CellText,
    outcome: Result<Transformed, ErrorKind>,
)
    requires
        cells.len() > 0,
        !cells[0].contains(name),
        transformed_from(cells, name, prefix, outcome),
    ensures
        rows_fit(kept_rows(cells, name, prefix)),
        outcome matches Ok(out) ==> {
            &&& out.rows.deep_view() == GridText::empty()
            &&& cells_of(out.rows.deep_view()) == Map::<(int, int), CellText>::empty()
            &&& out.condition matches Some(ErrorKind::ColumnNotFound(missing)) && missing@ == name
        },
{
    no_rows_without_column(cells, name, prefix);
    no_rows_no_cells(kept_rows(cells, name, prefix));
}

/// A run on a grid without rows is not refused by the writer. Where it
/// succeeds it hands back no rows, for a worksheet without cells, and has
/// nothing to report.
pub proof fn run_on_empty_grid(
    cells: GridText,
    name: CellText,
    prefix: CellText,
    outcome: Result<Transformed, ErrorKind>,
)
    requires
        cells.len() == 0,
        transformed_from(cells, name, prefix, outcome),
    ensures
        rows_fit(kept_rows(cells, name, prefix)),
        outcome matches Ok(out) ==> {
            &&& out.rows.deep_view() == GridText::empty()
            &&& cells_of(out.rows.deep_view()) == Map::<(int, int), CellText>::empty()
            &&& out.condition is None
        },
{
    no_rows_of_empty_grid(cells, name, prefix);
    no_rows_no_cells(kept_rows(cells, name, prefix));
}

/// Two runs on the same input that both succeed hand back the same rows,
/// cell for cell, so their worksheets hold the same text cells, and they
/// report the same condition. Two runs that both fail fail alike, with the
/// same message unless the encoding itself failed.
pub proof fn runs_repeat(
    input: Result<Option<GridText>, CellText>,
    name: CellText,
    prefix: CellText,
    first: Result<Transformed, ErrorKind>,
    second: Result<Transformed, ErrorKind>,
)
    requires
        run_outcome(input, name, prefix, first),
        run_outcome(input, name, prefix, second),
    ensures
        first matches Ok(a) ==> second matches Ok(b) ==> {
            &&& a.rows.deep_view() == b.rows.deep_view()
            &&& cells_of(a.rows.deep_view()) == cells_of(b.rows.deep_view())
            &&& a.condition is Some <==> b.condition is Some
        },
        first matches Err(a) ==> second matches Err(b) ==> {
            &&& a is ParseError <==> b is ParseError
            &&& a is NoSheetError <==> b is NoSheetError
            &&& a is WriteError <==> b is WriteError
            &&& a is WriteError || a.message_text() == b.message_text()
        },
{
}

} // verus!
