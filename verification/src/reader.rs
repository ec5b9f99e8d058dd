//! What a read of a worksheet amounts to.
//!
//! The workbook formats are parsed by the caller, which hands over what it
//! read: the cells of the worksheet as text, the absence of a worksheet, or
//! the parser's message. `grid_of_read` turns that into the grid or the
//! error it stands for.

use vstd::prelude::*;
use crate::error::ErrorKind;
use crate::grid::{CellText, Grid, GridText};

verus! {

/// The worksheet that a run reads, counted from 0 in workbook order: the
/// first.
pub const FIRST_SHEET: usize = 0;

/// The model of what a read handed back: every text by its characters.
pub open spec fn read_model(read: Result<Option<Grid>, String>) -> Result<
    Option<GridText>,
    CellText,
> {
    match read {
        Ok(Some(cells)) => Ok(Some(cells.deep_view())),
        Ok(None) => Ok(None),
        Err(message) => Err(message@),
    }
}

/// What a read of the first worksheet amounts to: its grid, `ParseError`
/// with the parser's message, or `NoSheetError`.
pub open spec fn first_sheet_outcome(
    read: Result<Option<GridText>, CellText>,
    outcome: Result<Grid, ErrorKind>,
) -> bool {
    match read {
        Ok(Some(cells)) => outcome matches Ok(grid) && grid.deep_view() == cells,
        Ok(None) => outcome == Err::<Grid, ErrorKind>(ErrorKind::NoSheetError),
        Err(message) => outcome matches Err(ErrorKind::ParseError(detail)) && detail@ == message,
    }
}

/// Turns what a read handed back into the grid or the error it stands for:
/// `Ok(Some(cells))` is the worksheet's grid, `Ok(None)` a workbook without
/// the worksheet, and `Err(message)` bytes that could not be parsed.
pub fn grid_of_read(read: Result<Option<Grid>, String>) -> (outcome: Result<Grid, ErrorKind>)
    ensures
        first_sheet_outcome(read_model(read), outcome),
{
    match read {
        Ok(Some(cells)) => Ok(cells),
        Ok(None) => Err(ErrorKind::NoSheetError),
        Err(message) => Err(ErrorKind::ParseError(message)),
    }
}

} // verus!
