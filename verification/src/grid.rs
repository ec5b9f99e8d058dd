//! The grid of cell texts, the column lookup and the row filter.
//!
//! A grid holds the rows of a worksheet in their order, each row the text of
//! its cells in column order. Its model, `grid.deep_view()`, holds each cell
//! by its characters. Row 0 is the header.

use vstd::prelude::*;
use crate::error::ErrorKind;
use crate::text::{begins_with, starts_with};

verus! {

/// A row of a worksheet: the text of its cells, in column order.
pub type Row = Vec<String>;

/// A worksheet as text: its rows, in worksheet order.
pub type Grid = Vec<Row>;

/// The model of a cell: its characters.
pub type CellText = Seq<char>;

/// The model of a row: its cells, in column order.
pub type RowText = Seq<Seq<char>>;

/// The model of a grid: its rows, in worksheet order.
pub type GridText = Seq<Seq<Seq<char>>>;

/// `column` is the place of the first cell of `header` that equals `name`.
pub open spec fn is_column(header: RowText, name: CellText, column: int) -> bool {
    &&& 0 <= column < header.len()
    &&& header[column] == name
    &&& forall|earlier: int| 0 <= earlier < column ==> header[earlier] != name
}

/// The place of the first cell of `header` that equals `name` exactly, or
/// `None` where no cell does.
pub open spec fn column_of(header: RowText, name: CellText) -> Option<int> {
    if exists|column: int| is_column(header, name, column) {
        Some(choose|column: int| is_column(header, name, column))
    } else {
        None
    }
}

/// A data row is kept when it has a cell at `column` and that cell starts
/// with `prefix`. A row too short to have the cell is not kept.
pub open spec fn row_kept(row: RowText, column: int, prefix: CellText) -> bool {
    0 <= column < row.len() && begins_with(row[column], prefix)
}

/// The rows that the filter keeps: none for a grid without rows or a header
/// without the column; else the rows after the header that `row_kept`
/// accepts, in their order.
pub open spec fn kept_rows(grid: GridText, name: CellText, prefix: CellText) -> GridText {
    if grid.len() == 0 {
        Seq::empty()
    } else {
        match column_of(grid[0], name) {
            None => Seq::empty(),
            Some(column) => grid.skip(1).filter(
                |row: RowText| row_kept(row, column, prefix),
            ),
        }
    }
}

/// The grid has a header, and the header lacks the column.
pub open spec fn column_missing(grid: GridText, name: CellText) -> bool {
    grid.len() > 0 && column_of(grid[0], name) is None
}

/// What the filter hands back: the kept rows, and the condition to report.
#[derive(Debug, Clone, PartialEq, Eq)]
pub struct Filtered {
    /// The kept rows, without the header, in the grid's order.
    pub rows: Grid,
    /// `ColumnNotFound` with the column's name where the header lacks it;
    /// `None` otherwise.
    pub condition: Option<ErrorKind>,
}

/// Finds the first cell of `header` that equals `name`.
pub fn find_column(header: &Row, name: &str) -> (found: Option<usize>)
    ensures
        match found {
            Some(column) => column_of(header.deep_view(), name@) == Some(column as int),
            None => column_of(header.deep_view(), name@) is None,
        },
{
    let wanted = name.to_owned();
    let mut at: usize = 0;
    while at < header.len()
        invariant
            at <= header.len(),
            wanted@ == name@,
            forall|earlier: int| 0 <= earlier < at ==> header.deep_view()[earlier] != name@,
        decreases header.len() - at,
    {
        if header[at] == wanted {
            proof {
                column_of_first_match(header.deep_view(), name@, at as int);
            }
            return Some(at);
        }
        at += 1;
    }
    None
}

/// Tests one data row against the column and the prefix.
pub fn keeps_row(row: &Row, column: usize, prefix: &str) -> (kept: bool)
    ensures
        kept == row_kept(row.deep_view(), column as int, prefix@),
{
    column < row.len() && starts_with(row[column].as_str(), prefix)
}

/// Keeps the data rows of `grid` whose cell under the column named
/// `column_name` starts with `prefix`.
///
/// The header is row 0 and is never part of the result. A grid without rows
/// gives no rows and no condition. A header without the column gives no rows
/// and the condition `ColumnNotFound`.
pub fn filter_rows(grid: &Grid, column_name: &str, prefix: &str) -> (out: Filtered)
    ensures
        out.rows.deep_view() == kept_rows(grid.deep_view(), column_name@, prefix@),
        out.condition is Some <==> column_missing(grid.deep_view(), column_name@),
        out.condition matches Some(condition) ==> (condition matches ErrorKind::ColumnNotFound(
            missing,
        ) && missing@ == column_name@),
{
    if grid.len() == 0 {
        return Filtered { rows: Vec::new(), condition: None };
    }
    let column = match find_column(&grid[0], column_name) {
        None => {
            let missing = ErrorKind::ColumnNotFound(column_name.to_owned());
            return Filtered { rows: Vec::new(), condition: Some(missing) };
        },
        Some(column) => column,
    };
    let ghost model = grid.deep_view();
    let ghost keep = |row: RowText| row_kept(row, column as int, prefix@);
    let mut rows: Grid = Vec::new();
    let mut at: usize = 1;
    while at < grid.len()
        invariant
            1 <= at <= grid.len(),
            model == grid.deep_view(),
            keep == |row: RowText| row_kept(row, column as int, prefix@),
            rows.deep_view() == model.subrange(1, at as int).filter(keep),
        decreases grid.len() - at,
    {
        let row = &grid[at];
        proof {
            assert(model.subrange(1, at + 1) == model.subrange(1, at as int).push(row.deep_view()));
            filter_push(model.subrange(1, at as int), row.deep_view(), keep);
        }
        if keeps_row(row, column, prefix) {
            rows.push(row.clone());
        }
        at += 1;
    }
    Filtered { rows, condition: None }
}

/// Two places that are both the first match are the same place.
pub proof fn column_is_unique(header: RowText, name: CellText, a: int, b: int)
    requires
        is_column(header, name, a),
        is_column(header, name, b),
    ensures
        a == b,
{
}

/// A header in which `name` is first found at `column` has that column.
pub proof fn column_of_first_match(header: RowText, name: CellText, column: int)
    requires
        is_column(header, name, column),
    ensures
        column_of(header, name) == Some(column),
{
    column_is_unique(header, name, column, choose|first: int| is_column(header, name, first));
}

/// A header that has the name has a first cell that equals it, and a header
/// without the name has no column.
pub proof fn column_of_decides(header: RowText, name: CellText)
    ensures
        column_of(header, name) is Some <==> header.contains(name),
        column_of(header, name) matches Some(column) ==> is_column(header, name, column),
{
    if header.contains(name) {
        let some = choose|i: int| 0 <= i < header.len() && header[i] == name;
        first_match_before(header, name, some + 1);
    }
}

/// With the column first found at `column` of the header, the kept rows are
/// exactly the rows after the header whose cell at `column` starts with
/// `prefix`: each of them, no other, in the grid's order, and never the
/// header.
pub proof fn kept_rows_with_column(grid: GridText, name: CellText, prefix: CellText, column: int)
    requires
        grid.len() > 0,
        is_column(grid[0], name, column),
    ensures
        kept_rows(grid, name, prefix) == grid.skip(1).filter(
            |row: RowText| row_kept(row, column, prefix),
        ),
        forall|k: int|
            0 <= k < kept_rows(grid, name, prefix).len() ==> row_kept(
                #[trigger] kept_rows(grid, name, prefix)[k],
                column,
                prefix,
            ),
        forall|at: int|
            1 <= at < grid.len() && row_kept(grid[at], column, prefix) ==> kept_rows(
                grid,
                name,
                prefix,
            ).contains(#[trigger] grid[at]),
{
    column_of_first_match(grid[0], name, column);
    let keep = |row: RowText| row_kept(row, column, prefix);
    let data = grid.skip(1);
    broadcast use {Seq::lemma_filter_pred, Seq::lemma_filter_contains};

    assert forall|at: int|
        1 <= at < grid.len() && row_kept(grid[at], column, prefix) implies data.filter(
        keep,
    ).contains(#[trigger] grid[at]) by {
        data.lemma_filter_contains(keep, at - 1);
    }
}

/// A header without the column leaves no row.
pub proof fn no_rows_without_column(grid: GridText, name: CellText, prefix: CellText)
    requires
        grid.len() > 0,
        !grid[0].contains(name),
    ensures
        kept_rows(grid, name, prefix) == GridText::empty(),
        column_missing(grid, name),
{
    column_of_decides(grid[0], name);
}

/// A grid without rows leaves no row, and lacks no column.
pub proof fn no_rows_of_empty_grid(grid: GridText, name: CellText, prefix: CellText)
    requires
        grid.len() == 0,
    ensures
        kept_rows(grid, name, prefix) == GridText::empty(),
        !column_missing(grid, name),
{
}

/// `kept` holds the rows of `grid` at `places`, which rise and skip the
/// header.
pub open spec fn kept_at(grid: GridText, kept: GridText, places: Seq<int>) -> bool {
    &&& places.len() == kept.len()
    &&& forall|k: int| 0 <= k < places.len() ==> 1 <= #[trigger] places[k] < grid.len()
    &&& forall|k: int| 0 <= k < places.len() ==> kept[k] == grid[#[trigger] places[k]]
    &&& forall|j: int, k: int| 0 <= j < k < places.len() ==> places[j] < places[k]
}

/// The kept rows keep the grid's order: they are the rows at rising places
/// of the grid, all after the header.
pub proof fn kept_rows_in_order(grid: GridText, name: CellText, prefix: CellText)
    ensures
        exists|places: Seq<int>| kept_at(grid, kept_rows(grid, name, prefix), places),
{
    if grid.len() == 0 || column_of(grid[0], name) is None {
        assert(kept_at(grid, kept_rows(grid, name, prefix), Seq::<int>::empty()));
    } else {
        let column = column_of(grid[0], name)->0;
        let keep = |row: RowText| row_kept(row, column, prefix);
        filter_places(grid, keep, grid.len() as int);
        let places = choose|places: Seq<int>|
            kept_below(grid, grid.skip(1).filter(keep), places, grid.len() as int);
        assert(kept_at(grid, kept_rows(grid, name, prefix), places));
    }
}

/// Where some cell among the first `end` equals `name`, one of them is the
/// first to do so.
proof fn first_match_before(header: RowText, name: CellText, end: int)
    requires
        0 <= end <= header.len(),
        exists|i: int| 0 <= i < end && header[i] == name,
    ensures
        exists|column: int| is_column(header, name, column),
    decreases end,
{
    if exists|i: int| 0 <= i < end - 1 && header[i] == name {
        first_match_before(header, name, end - 1);
    } else {
        assert(is_column(header, name, end - 1));
    }
}

/// Filtering a sequence with one more item at its end keeps the item or
/// not, and changes nothing before it.
proof fn filter_push<A>(items: Seq<A>, last: A, keep: spec_fn(A) -> bool)
    ensures
        items.push(last).filter(keep) == if keep(last) {
            items.filter(keep).push(last)
        } else {
            items.filter(keep)
        },
{
    reveal(Seq::filter);
    assert(items.push(last).drop_last() == items);
}

/// `kept_at`, with every place below `end`.
spec fn kept_below(grid: GridText, kept: GridText, places: Seq<int>, end: int) -> bool {
    &&& kept_at(grid, kept, places)
    &&& forall|k: int| 0 <= k < places.len() ==> #[trigger] places[k] < end
}

/// The rows that a filter keeps of the rows from 1 up to `end` stand at
/// rising places below `end`.
proof fn filter_places(grid: GridText, keep: spec_fn(RowText) -> bool, end: int)
    requires
        1 <= end <= grid.len(),
    ensures
        exists|places: Seq<int>| kept_below(grid, grid.subrange(1, end).filter(keep), places, end),
    decreases end,
{
    if end == 1 {
        reveal(Seq::filter);
        let places = Seq::<int>::empty();
        assert(kept_below(grid, grid.subrange(1, end).filter(keep), places, end));
    } else {
        filter_places(grid, keep, end - 1);
        let prior = end - 1;
        let before = choose|places: Seq<int>|
            kept_below(grid, grid.subrange(1, prior).filter(keep), places, prior);
        assert(grid.subrange(1, end) == grid.subrange(1, end - 1).push(grid[end - 1]));
        filter_push(grid.subrange(1, end - 1), grid[end - 1], keep);
        if keep(grid[end - 1]) {
            let places = before.push(end - 1);
            assert(kept_below(grid, grid.subrange(1, end).filter(keep), places, end));
        } else {
            assert(kept_below(grid, grid.subrange(1, end).filter(keep), before, end));
        }
    }
}

} // verus!
