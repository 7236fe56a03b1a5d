//! The failures that browsing a dataset can end in.

use vstd::prelude::*;

verus! {

/// The kinds of failure.
#[derive(Clone, Copy, Debug, PartialEq, Eq, Structural)]
pub enum ErrorKind {
    /// The file's format is not one that can be read.
    UnsupportedFormat,
    /// The file cannot be got at.
    Io,
    /// The data of a dataset cannot be got at.
    DataAccess,
    /// A query was refused.
    Query,
}

/// Why an operation on a dataset failed.
#[derive(Debug)]
pub enum PeepError {
    /// The path names no file, so the dataset has no label.
    MissingFileName,
    /// The path has no extension to tell the file format by.
    MissingExtension,
    /// The extension is neither `parquet` nor `csv`.
    UnsupportedFormat,
    /// The dataset was loaded without a column to draw a sample by.
    NoColumns,
    /// The engine could not give the row count or the schema of a dataset, or
    /// could not evaluate it; the text is the engine's own.
    DataAccess(String),
    /// The engine refused a query; the text is the engine's own.
    Query(String),
}

impl PeepError {
    /// The text shown to the user for this failure.
    pub open spec fn text(self) -> Seq<char> {
        match self {
            PeepError::MissingFileName => "File should have a name"@,
            PeepError::MissingExtension => "Unable to read file extension"@,
            PeepError::UnsupportedFormat => "File type not supported (parquet and csv only)"@,
            PeepError::NoColumns => "PeepFrame should have column names"@,
            PeepError::DataAccess(message) => message@,
            PeepError::Query(message) => message@,
        }
    }

    /// The kind of this failure. A path without a file name names nothing to
    /// read; a missing extension is an unknown format as much as a wrong one; a
    /// dataset without columns has no data to get at.
    pub open spec fn kind_of(self) -> ErrorKind {
        match self {
            PeepError::MissingFileName => ErrorKind::Io,
            PeepError::MissingExtension => ErrorKind::UnsupportedFormat,
            PeepError::UnsupportedFormat => ErrorKind::UnsupportedFormat,
            PeepError::NoColumns => ErrorKind::DataAccess,
            PeepError::DataAccess(_) => ErrorKind::DataAccess,
            PeepError::Query(_) => ErrorKind::Query,
        }
    }

    /// Computes [`kind_of`](PeepError::kind_of).
    pub fn kind(&self) -> (kind: ErrorKind)
        ensures
            kind == self.kind_of(),
    {
        match self {
            PeepError::MissingFileName => ErrorKind::Io,
            PeepError::MissingExtension => ErrorKind::UnsupportedFormat,
            PeepError::UnsupportedFormat => ErrorKind::UnsupportedFormat,
            PeepError::NoColumns => ErrorKind::DataAccess,
            PeepError::DataAccess(_) => ErrorKind::DataAccess,
            PeepError::Query(_) => ErrorKind::Query,
        }
    }

    /// Renders the failure as text.
    pub fn message(&self) -> (s: String)
        ensures
            s@ == self.text(),
    {
        match self {
            PeepError::MissingFileName => "File should have a name".to_owned(),
            PeepError::MissingExtension => "Unable to read file extension".to_owned(),
            PeepError::UnsupportedFormat => {
                "File type not supported (parquet and csv only)".to_owned()
            },
            PeepError::NoColumns => "PeepFrame should have column names".to_owned(),
            PeepError::DataAccess(message) => message.clone(),
            PeepError::Query(message) => message.clone(),
        }
    }
}

} // verus!
