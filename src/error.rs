//! Errors reported by validation and by the database handle.
use vstd::prelude::*;

use crate::databases::Database;

verus! {

/// Every failure the library reports, one variant per cause.
#[derive(Debug, Clone)]
pub enum InspectorError {
    /// A mutate command was given without a value.
    MissingValue,
    /// A hex argument has an odd number of digits or a character that is not a hex digit;
    /// `position` is the index (in characters) of the offending spot in the argument.
    MalformedHex { position: usize },
    /// The column name is not one of the database's columns; `known_names` lists them all.
    UnknownColumn { name: String, database: Database, known_names: Vec<String> },
    /// The configured store path does not exist.
    PathNotFound { path: String },
    /// The storage engine could not open the region.
    EngineOpenFailed { cause: String },
    /// The storage engine failed while reading or writing.
    StorageIo { cause: String },
    /// A column of one database was presented to a handle opened for another.
    ColumnMismatch { column_database: Database, handle_database: Database },
    /// The database is read-only from this tool.
    UnsupportedOperation { database: Database },
}

/// The mathematical value of an [`InspectorError`]: strings as character sequences.
pub enum InspectorErrorView {
    MissingValue,
    MalformedHex { position: usize },
    UnknownColumn { name: Seq<char>, database: Database, known_names: Seq<Seq<char>> },
    PathNotFound { path: Seq<char> },
    EngineOpenFailed { cause: Seq<char> },
    StorageIo { cause: Seq<char> },
    ColumnMismatch { column_database: Database, handle_database: Database },
    UnsupportedOperation { database: Database },
}

/// The character sequences of a list of strings.
pub open spec fn string_views(v: Seq<String>) -> Seq<Seq<char>> {
    v.map_values(|s: String| s@)
}

impl View for InspectorError {
    type V = InspectorErrorView;

    open spec fn view(&self) -> InspectorErrorView {
        match self {
            InspectorError::MissingValue => InspectorErrorView::MissingValue,
            InspectorError::MalformedHex { position } => InspectorErrorView::MalformedHex {
                position: *position,
            },
            InspectorError::UnknownColumn { name, database, known_names } => {
                InspectorErrorView::UnknownColumn {
                    name: name@,
                    database: *database,
                    known_names: string_views(known_names@),
                }
            },
            InspectorError::PathNotFound { path } => InspectorErrorView::PathNotFound {
                path: path@,
            },
            InspectorError::EngineOpenFailed { cause } => InspectorErrorView::EngineOpenFailed {
                cause: cause@,
            },
            InspectorError::StorageIo { cause } => InspectorErrorView::StorageIo { cause: cause@ },
            InspectorError::ColumnMismatch { column_database, handle_database } => {
                InspectorErrorView::ColumnMismatch {
                    column_database: *column_database,
                    handle_database: *handle_database,
                }
            },
            InspectorError::UnsupportedOperation { database } => {
                InspectorErrorView::UnsupportedOperation { database: *database }
            },
        }
    }
}

} // verus!
