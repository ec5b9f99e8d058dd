//! Writing rows of text as a workbook of one worksheet.
//!
//! The workbook is built by the `rust_xlsxwriter` crate. A worksheet of that
//! crate is filled cell by cell; `sheet_text` names the text cells that it
//! holds, and the cell writer's contract says how one write changes them.
//! What encoding a workbook gives is not restated: it has a name, `encoded`.

use vstd::prelude::*;
use rust_xlsxwriter::{Workbook, Worksheet};
use crate::error::ErrorKind;
use crate::grid::{CellText, Grid, GridText};

verus! {

/// A worksheet of `rust_xlsxwriter`, carried as an opaque value.
#[verifier::external_type_specification]
#[verifier::external_body]
pub struct ExWorksheet(Worksheet);

/// A workbook of `rust_xlsxwriter`, carried as an opaque value.
#[verifier::external_type_specification]
#[verifier::external_body]
pub struct ExWorkbook(Workbook);

/// The number of rows of a worksheet.
pub const SHEET_ROWS: u32 = 1_048_576;

/// The number of columns of a worksheet.
pub const SHEET_COLUMNS: u16 = 16_384;

/// The most characters that one cell can hold.
pub const CELL_CHARS: usize = 32_767;

/// The text cells that a worksheet holds, by row and column, both counted
/// from 0. A place without a text cell is not in the map.
pub uninterp spec fn sheet_text(sheet: Worksheet) -> Map<(int, int), Seq<char>>;

/// The text cells of each worksheet of a workbook, in workbook order.
pub uninterp spec fn book_sheets(book: Workbook) -> Seq<Map<(int, int), Seq<char>>>;

/// What encoding a workbook gives: the bytes of an xlsx file, or the
/// message of the failure.
pub uninterp spec fn encoded(book: Workbook) -> Result<Seq<u8>, Seq<char>>;

/// The writer takes `text` for the cell at `row` and `column`: an empty
/// text is always taken, and leaves no cell; any other must lie within the
/// worksheet and within the length that a cell can hold.
pub open spec fn cell_fits(row: int, column: int, text: CellText) -> bool {
    text.len() == 0 || (row < SHEET_ROWS && column < SHEET_COLUMNS && text.len() <= CELL_CHARS)
}

/// The message with which the writer refuses a text that does not fit the
/// cell at `row` and `column`: one for a place outside the worksheet, and
/// another for a text too long for a cell within it.
pub open spec fn refusal(row: int, column: int) -> Seq<char> {
    if row >= SHEET_ROWS || column >= SHEET_COLUMNS {
        "Row or column exceeds Excel's allowed limits (1,048,576 x 16,384)."@
    } else {
        "String exceeds Excel's limit of 32,767 characters."@
    }
}

/// The place `(r, c)` comes before the place `(row, column)`, rows first.
pub open spec fn before(r: int, c: int, row: int, column: int) -> bool {
    r < row || (r == row && c < column)
}

/// Every cell of `rows` before the cell at `row` and `column` is one that
/// the writer takes.
pub open spec fn fit_before(rows: GridText, row: int, column: int) -> bool {
    forall|r: int, c: int|
        0 <= r < rows.len() && 0 <= c < rows[r].len() && before(r, c, row, column) ==> cell_fits(
            r,
            c,
            #[trigger] rows[r][c],
        )
}

/// Every cell of `rows` is one that the writer takes.
pub open spec fn rows_fit(rows: GridText) -> bool {
    fit_before(rows, rows.len() as int, 0)
}

/// The cell at `row` and `column` is the first of `rows`, rows first, that
/// the writer refuses.
pub open spec fn first_refused(rows: GridText, row: int, column: int) -> bool {
    &&& 0 <= row < rows.len()
    &&& 0 <= column < rows[row].len()
    &&& !cell_fits(row, column, rows[row][column])
    &&& fit_before(rows, row, column)
}

/// The writer's message for the first cell of `rows` that it refuses. The
/// writer is handed the cells in order, rows first, and stops at that cell.
pub open spec fn refusal_of(rows: GridText) -> Seq<char> {
    let at = choose|at: (int, int)| first_refused(rows, at.0, at.1);
    refusal(at.0, at.1)
}

/// `outcome` is what encoding `book` amounts to: its bytes, or `WriteError`
/// with the writer's message.
pub open spec fn encoding_of(book: Workbook, outcome: Result<Vec<u8>, ErrorKind>) -> bool {
    match encoded(book) {
        Ok(bytes) => outcome matches Ok(out) && out@ == bytes,
        Err(message) => outcome matches Err(ErrorKind::WriteError(detail)) && detail@ == message,
    }
}

/// An index within `limit` is itself; every other stands for `limit`, the
/// first index outside.
spec fn within(index: int, limit: int) -> int {
    if index < limit {
        index
    } else {
        limit
    }
}

/// The text cells of `rows` that come before the cell at `row` and
/// `column`, rows first: each non-empty text at its place.
pub open spec fn cells_before(rows: GridText, row: int, column: int) -> Map<(int, int), CellText> {
    Map::new(
        |at: (int, int)|
            0 <= at.0 < rows.len() && 0 <= at.1 < rows[at.0].len() && rows[at.0][at.1].len() > 0
                && before(at.0, at.1, row, column),
        |at: (int, int)| rows[at.0][at.1],
    )
}

/// The text cells of a worksheet that holds `rows` from its first row and
/// first column on: row `r` of `rows` in row `r`, its cell `c` in column
/// `c`. An empty text leaves its place without a cell.
pub open spec fn cells_of(rows: GridText) -> Map<(int, int), CellText> {
    cells_before(rows, rows.len() as int, 0)
}

/// Every row of `rows` has a cell, and no cell of `rows` is empty.
pub open spec fn filled(rows: GridText) -> bool {
    &&& forall|r: int| 0 <= r < rows.len() ==> (#[trigger] rows[r]).len() > 0
    &&& forall|r: int, c: int|
        0 <= r < rows.len() && 0 <= c < rows[r].len() ==> (#[trigger] rows[r][c]).len() > 0
}

/// `Worksheet::new` makes a worksheet without cells.
pub assume_specification[ Worksheet::new ]() -> (sheet: Worksheet)
    ensures
        sheet_text(sheet) == (Map::<(int, int), Seq<char>>::empty()),
;

/// `Workbook::new` makes a workbook without worksheets.
pub assume_specification[ Workbook::new ]() -> (book: Workbook)
    ensures
        book_sheets(book) == (Seq::<Map<(int, int), Seq<char>>>::empty()),
;

/// `Workbook::push_worksheet` makes the worksheet the last of the workbook,
/// with the cells that it holds.
pub assume_specification[ Workbook::push_worksheet ](book: &mut Workbook, sheet: Worksheet)
    ensures
        book_sheets(*final(book)) == book_sheets(*old(book)).push(sheet_text(sheet)),
;

/// Calls `Worksheet::write_string`, which stores `text` as a text cell.
///
/// Trusted, as that function's source shows it for a worksheet in the
/// crate's standard mode, the only one there is without its
/// `constant_memory` feature: an empty text is accepted and ignored;
/// otherwise a row or column outside the worksheet, or a text of more than
/// 32,767 characters, is refused and no cell is stored; and otherwise the
/// cell at `row` and `column` becomes `text`, replacing what was there, and
/// no other cell changes. A refusal is handed back as the message that its
/// error displays: the place is tested before the length, and each of the
/// two errors displays a fixed text.
#[verifier::external_body]
fn write_text(sheet: &mut Worksheet, row: u32, column: u16, text: &str) -> (done: Result<
    (),
    String,
>)
    ensures
        done is Ok <==> cell_fits(row as int, column as int, text@),
        done matches Err(message) ==> message@ == refusal(row as int, column as int),
        sheet_text(*final(sheet)) == if done is Ok && text@.len() > 0 {
            sheet_text(*old(sheet)).insert((row as int, column as int), text@)
        } else {
            sheet_text(*old(sheet))
        },
{
    sheet.write_string(row, column, text).map(|_| ()).map_err(|error| error.to_string())
}

/// Calls `Workbook::save_to_buffer`, which encodes the workbook as the
/// bytes of an xlsx file. A failure is handed back as the message that its
/// error displays.
///
/// Trusted: that the outcome depends on the workbook alone, which is all
/// that naming it `encoded` claims. The workbook took the time of its
/// creation when it was made, and the entries of the archive carry a fixed
/// date: the encoding reads no clock.
#[verifier::external_body]
fn save_book(book: &mut Workbook) -> (saved: Result<Vec<u8>, String>)
    ensures
        match saved {
            Ok(bytes) => encoded(*old(book)) == Ok::<Seq<u8>, Seq<char>>(bytes@),
            Err(message) => encoded(*old(book)) == Err::<Seq<u8>, Seq<char>>(message@),
        },
{
    book.save_to_buffer().map_err(|error| error.to_string())
}

/// The worksheet row for a row of the grid. Rows past the worksheet's last
/// all stand for the first row outside it.
fn sheet_row(row: usize) -> (number: u32)
    ensures
        number == within(row as int, SHEET_ROWS as int),
{
    if row < SHEET_ROWS as usize {
        row as u32
    } else {
        SHEET_ROWS
    }
}

/// The worksheet column for a cell of a row, as `sheet_row` does for rows.
fn sheet_column(column: usize) -> (number: u16)
    ensures
        number == within(column as int, SHEET_COLUMNS as int),
{
    if column < SHEET_COLUMNS as usize {
        column as u16
    } else {
        SHEET_COLUMNS
    }
}

/// Makes a worksheet that holds `rows` as text cells, from its first row
/// and first column on.
///
/// Fails with `WriteError` exactly when some cell is one that the writer
/// refuses: a non-empty text outside the worksheet's 1,048,576 rows and
/// 16,384 columns, or longer than 32,767 characters. The error carries the
/// writer's message for the first such cell.
pub fn sheet_of_rows(rows: &Grid) -> (made: Result<Worksheet, ErrorKind>)
    ensures
        made is Ok <==> rows_fit(rows.deep_view()),
        made matches Ok(sheet) ==> sheet_text(sheet) == cells_of(rows.deep_view()),
        made matches Err(error) ==> (error matches ErrorKind::WriteError(detail) && detail@
            == refusal_of(rows.deep_view())),
{
    let mut sheet = Worksheet::new();
    let ghost model = rows.deep_view();
    let mut row: usize = 0;
    while row < rows.len()
        invariant
            row <= rows.len(),
            model == rows.deep_view(),
            sheet_text(sheet) == cells_before(model, row as int, 0),
            fit_before(model, row as int, 0),
        decreases rows.len() - row,
    {
        let cells = &rows[row];
        let number = sheet_row(row);
        let mut column: usize = 0;
        while column < cells.len()
            invariant
                row < rows.len(),
                column <= cells.len(),
                model == rows.deep_view(),
                model[row as int] == cells.deep_view(),
                number == within(row as int, SHEET_ROWS as int),
                sheet_text(sheet) == cells_before(model, row as int, column as int),
                fit_before(model, row as int, column as int),
            decreases cells.len() - column,
        {
            let text = cells[column].as_str();
            match write_text(&mut sheet, number, sheet_column(column), text) {
                Ok(_) => {},
                Err(message) => {
                    proof {
                        let here = (row as int, column as int);
                        assert(first_refused(model, here.0, here.1));
                        first_refused_is_unique(
                            model,
                            here,
                            choose|at: (int, int)| first_refused(model, at.0, at.1),
                        );
                    }
                    return Err(ErrorKind::WriteError(message));
                },
            }
            column += 1;
        }
        row += 1;
    }
    Ok(sheet)
}

/// Makes a workbook of one worksheet, which holds `rows` as
/// `sheet_of_rows` lays them out. It fails when `sheet_of_rows` does.
pub fn book_of_rows(rows: &Grid) -> (made: Result<Workbook, ErrorKind>)
    ensures
        made is Ok <==> rows_fit(rows.deep_view()),
        made matches Ok(book) ==> book_sheets(book) == seq![cells_of(rows.deep_view())],
        made matches Err(error) ==> (error matches ErrorKind::WriteError(detail) && detail@
            == refusal_of(rows.deep_view())),
{
    match sheet_of_rows(rows) {
        Err(error) => Err(error),
        Ok(sheet) => {
            let mut book = Workbook::new();
            book.push_worksheet(sheet);
            Ok(book)
        },
    }
}

/// What comes of encoding a workbook: its bytes, or `WriteError` with the
/// writer's message.
pub fn bytes_of_save(saved: Result<Vec<u8>, String>) -> (outcome: Result<Vec<u8>, ErrorKind>)
    ensures
        match saved {
            Ok(bytes) => outcome == Ok::<Vec<u8>, ErrorKind>(bytes),
            Err(message) => outcome matches Err(ErrorKind::WriteError(detail)) && detail@
                == message@,
        },
{
    match saved {
        Ok(bytes) => Ok(bytes),
        Err(message) => Err(ErrorKind::WriteError(message)),
    }
}

/// Encodes `rows` as an xlsx workbook of one worksheet, every cell as text,
/// rows and columns in their order: the workbook of `book_of_rows`.
///
/// The only error is `WriteError`. Where some cell is one that the writer
/// refuses, it carries the writer's message for the first such cell.
/// Otherwise the outcome is what encoding that workbook gives: its bytes, or
/// the message of the encoding's failure.
pub fn write_rows(rows: &Grid) -> (outcome: Result<Vec<u8>, ErrorKind>)
    ensures
        outcome matches Err(error) ==> error is WriteError,
        !rows_fit(rows.deep_view()) ==> (outcome matches Err(ErrorKind::WriteError(detail))
            && detail@ == refusal_of(rows.deep_view())),
        rows_fit(rows.deep_view()) ==> exists|book: Workbook|
            book_sheets(book) == seq![cells_of(rows.deep_view())] && #[trigger] encoding_of(
                book,
                outcome,
            ),
{
    match book_of_rows(rows) {
        Err(error) => Err(error),
        Ok(mut book) => {
            let ghost made = book;
            let outcome = bytes_of_save(save_book(&mut book));
            assert(encoding_of(made, outcome));
            outcome
        },
    }
}

/// At most one cell is the first that the writer refuses.
pub proof fn first_refused_is_unique(rows: GridText, a: (int, int), b: (int, int))
    requires
        first_refused(rows, a.0, a.1),
        first_refused(rows, b.0, b.1),
    ensures
        a == b,
{
    if before(a.0, a.1, b.0, b.1) {
        assert(cell_fits(a.0, a.1, rows[a.0][a.1]));
    }
    if before(b.0, b.1, a.0, a.1) {
        assert(cell_fits(b.0, b.1, rows[b.0][b.1]));
    }
}

/// The text cells of a worksheet tell which rows it was made of, as long
/// as every row has a cell and no cell is empty: two such grids that leave
/// the same text cells are the same grid, row for row and cell for cell.
/// An empty text leaves no cell, so it cannot be told from a missing one.
pub proof fn cells_determine_rows(a: GridText, b: GridText)
    requires
        filled(a),
        filled(b),
        cells_of(a) == cells_of(b),
    ensures
        a == b,
{
    same_cells_one_way(a, b);
    same_cells_one_way(b, a);
    assert forall|r: int| 0 <= r < a.len() implies a[r] == b[r] by {
        assert(a[r].len() == b[r].len());
        assert forall|c: int| 0 <= c < a[r].len() implies a[r][c] == b[r][c] by {
            assert(a[r][c].len() > 0);
            assert(cells_of(a).dom().contains((r, c)));
            assert(cells_of(a)[(r, c)] == a[r][c]);
            assert(cells_of(b)[(r, c)] == b[r][c]);
        }
    }
}

/// Every place of a cell of `a` is the place of a cell of `b`.
proof fn same_cells_one_way(a: GridText, b: GridText)
    requires
        filled(a),
        cells_of(a) == cells_of(b),
    ensures
        a.len() <= b.len(),
        forall|r: int| 0 <= r < a.len() ==> (#[trigger] a[r]).len() <= b[r].len(),
{
    if a.len() > 0 {
        let last = a.len() - 1;
        assert(a[last][0].len() > 0);
        assert(cells_of(a).dom().contains((last, 0)));
        assert(cells_of(b).dom().contains((last, 0)));
    }
    assert forall|r: int| 0 <= r < a.len() implies (#[trigger] a[r]).len() <= b[r].len() by {
        let last = a[r].len() - 1;
        assert(a[r][last].len() > 0);
        assert(cells_of(a).dom().contains((r, last)));
        assert(cells_of(b).dom().contains((r, last)));
    }
}

/// Rows that hold no row leave the worksheet without cells.
pub proof fn no_rows_no_cells(rows: GridText)
    requires
        rows.len() == 0,
    ensures
        cells_of(rows) == Map::<(int, int), CellText>::empty(),
        rows_fit(rows),
{
}

} // verus!
