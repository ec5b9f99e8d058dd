//! Row filtering for spreadsheets.
//!
//! A run takes the first worksheet of a workbook as a grid of cell texts,
//! finds a column by the exact text of its header cell, keeps the data rows
//! whose cell in that column starts with a given prefix, and encodes the
//! kept rows, without the header, as a new workbook of one worksheet.
//!
//! - [`grid`] holds the grid, the column lookup and the row filter, with
//!   what is proved of them.
//! - [`text`] holds the prefix test.
//! - [`reader`] says what a read of a worksheet amounts to.
//! - [`writer`] encodes rows as a workbook, through the `rust_xlsxwriter`
//!   crate.
//! - [`transform`] is the whole run.
//! - [`downloads`] says where a downloaded file goes.
//! - [`error`] lists what can go wrong.
//!
//! Nothing here reads the environment or touches the file system. Parsing
//! the input, finding the download directory and writing the files are the
//! caller's part: what the caller read comes in, and bytes go out. The calls
//! into `rust_xlsxwriter` and into the standard library's paths are believed,
//! not proved; each is marked where it stands, with what is claimed of it.

pub mod downloads;
pub mod error;
pub mod grid;
pub mod reader;
pub mod text;
pub mod transform;
pub mod writer;
