//! The ways a run can fail, and the one condition that is reported without
//! failing.

use vstd::prelude::*;

verus! {

/// Why a run failed, or what it has to report.
///
/// Every variant but `ColumnNotFound` is a hard failure: nothing is written
/// and the caller gets the message. `ColumnNotFound` is a soft condition: the
/// run still succeeds, with an output that holds no rows.
#[derive(Debug, Clone, PartialEq, Eq)]
pub enum ErrorKind {
    /// A file could not be read or written; carries the system's message.
    IoError(String),
    /// The input is not a workbook that the parser can read; carries the
    /// parser's message.
    ParseError(String),
    /// The workbook holds no worksheet.
    NoSheetError,
    /// The header row has no cell equal to the column name that is carried.
    ColumnNotFound(String),
    /// The kept rows could not be written as a workbook; carries the
    /// writer's message.
    WriteError(String),
    /// No directory for the output could be determined.
    DirectoryResolutionError,
}

impl ErrorKind {
    /// Only a missing column lets the run go on.
    pub open spec fn soft(self) -> bool {
        self is ColumnNotFound
    }

    /// The text shown to the user for this value.
    pub open spec fn message_text(self) -> Seq<char> {
        match self {
            ErrorKind::IoError(detail) => detail@,
            ErrorKind::ParseError(detail) => detail@,
            ErrorKind::NoSheetError => "The workbook has no worksheet"@,
            ErrorKind::ColumnNotFound(name) => "Column not found: "@ + name@,
            ErrorKind::WriteError(detail) => detail@,
            ErrorKind::DirectoryResolutionError => "Failed to get home directory"@,
        }
    }

    /// Whether the run goes on in spite of this value.
    pub fn is_soft(&self) -> (soft: bool)
        ensures
            soft == self.soft(),
    {
        match self {
            ErrorKind::ColumnNotFound(_) => true,
            _ => false,
        }
    }

    /// The human-readable message for this value. Messages that came from
    /// the system, the parser or the writer are passed on unchanged.
    pub fn message(&self) -> (text: String)
        ensures
            text@ == self.message_text(),
    {
        match self {
            ErrorKind::IoError(detail) => detail.clone(),
            ErrorKind::ParseError(detail) => detail.clone(),
            ErrorKind::NoSheetError => "The workbook has no worksheet".to_owned(),
            ErrorKind::ColumnNotFound(name) => {
                let mut text = "Column not found: ".to_owned();
                text.append(name.as_str());
                text
            },
            ErrorKind::WriteError(detail) => detail.clone(),
            ErrorKind::DirectoryResolutionError => "Failed to get home directory".to_owned(),
        }
    }
}

} // verus!
