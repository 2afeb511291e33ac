//! Inspect and mutate single key-value pairs of a store that is split into
//! several logical databases, each with its own fixed set of columns.
//!
//! - [`columns`]: the column registry of each database and the resolution of column names.
//! - [`hex`]: decoding of hex arguments.
//! - [`cli`]: validation of command-line arguments into a fully resolved command.
//! - [`databases`]: the databases, and the handle that checks and addresses reads and writes.
//! - [`printer`]: the report on a looked-up value.
//! - [`error`]: the errors all of these report.
pub mod cli;
pub mod columns;
pub mod databases;
pub mod error;
pub mod hex;
pub mod printer;
