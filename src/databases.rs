//! The logical databases of the store, and the handle through which one of them is
//! read and written.
//!
//! The handle decides whether an operation is allowed and which address it touches; the
//! storage engine, outside this library, carries out the request it hands back.
//!
//! `stored_value`, `after_write` and `read_outcome` model the store as a map from
//! addresses to values, on the assumption that the engine commits an accepted write
//! atomically and reads back what was committed. The laws below are proved of that model
//! and of the handle's checks; nothing here proves them of the engine itself.
use vstd::prelude::*;
use vstd::slice::slice_to_vec;

use crate::cli::ValidatedFuelCoreInspectorCliArgs;
use crate::columns::{spec_parse_column, Column};
use crate::error::{InspectorError, InspectorErrorView};

verus! {

/// The logical databases that share the physical store.
#[derive(Debug, Clone, Copy, PartialEq, Eq, Structural)]
pub enum Database {
    /// On-chain database
    OnChain,
    /// Off-chain database
    OffChain,
    /// Compression database
    Compression,
    /// Gas price database
    GasPrice,
    /// Relayer database
    Relayer,
}

impl Database {
    /// Whether this tool may write to the database: all but the compression database.
    pub open spec fn spec_is_writable(self) -> bool {
        !(self is Compression)
    }

    /// Whether this tool may write to the database.
    pub fn is_writable(&self) -> (r: bool)
        ensures
            r == self.spec_is_writable(),
    {
        match self {
            Database::Compression => false,
            _ => true,
        }
    }
}

/// Where the store lives on disk.
#[derive(Debug, Clone)]
pub struct DatabaseConfig {
    /// path to database
    pub path: String,
}

/// A handle on one logical database of the store.
pub struct DatabaseHandle {
    variant: Database,
    config: DatabaseConfig,
}

/// A point lookup that a handle has accepted: the key in the column.
#[derive(Debug, Clone)]
pub struct ReadRequest {
    pub column: Column,
    pub key: Vec<u8>,
}

/// A single-pair write that a handle has accepted: the value to store under the key in the
/// column, in one transaction.
#[derive(Debug, Clone)]
pub struct WriteRequest {
    pub column: Column,
    pub key: Vec<u8>,
    pub value: Vec<u8>,
}

/// Why a handle for `variant` refuses to read `column`, if it does.
pub open spec fn read_check(variant: Database, column: Column) -> Option<InspectorErrorView> {
    if column.spec_database() != variant {
        Some(
            InspectorErrorView::ColumnMismatch {
                column_database: column.spec_database(),
                handle_database: variant,
            },
        )
    } else {
        None
    }
}

/// Why a handle for `variant` refuses to write `column`, if it does: a read-only database
/// refuses every write, before the column is looked at.
pub open spec fn write_check(variant: Database, column: Column) -> Option<InspectorErrorView> {
    if !variant.spec_is_writable() {
        Some(InspectorErrorView::UnsupportedOperation { database: variant })
    } else {
        read_check(variant, column)
    }
}

/// Where a key of a column lives in the store: the region, the column id, the key.
pub open spec fn address(column: Column, key: Seq<u8>) -> (Database, u32, Seq<u8>) {
    (column.spec_database(), column.spec_id(), key)
}

/// What the store holds under `key` in `column`.
pub open spec fn stored_value(
    store: Map<(Database, u32, Seq<u8>), Seq<u8>>,
    column: Column,
    key: Seq<u8>,
) -> Option<Seq<u8>> {
    if store.contains_key(address(column, key)) {
        Some(store[address(column, key)])
    } else {
        None
    }
}

/// The store after an attempt to write `value` under `key` in `column` through a handle
/// for `variant`: the write is committed when the handle accepts it, and nothing changes
/// when it refuses.
pub open spec fn after_write(
    store: Map<(Database, u32, Seq<u8>), Seq<u8>>,
    variant: Database,
    column: Column,
    key: Seq<u8>,
    value: Seq<u8>,
) -> Map<(Database, u32, Seq<u8>), Seq<u8>> {
    if write_check(variant, column) is None {
        store.insert(address(column, key), value)
    } else {
        store
    }
}

/// What a read of `key` in `column` through a handle for `variant` gives on `store`.
pub open spec fn read_outcome(
    store: Map<(Database, u32, Seq<u8>), Seq<u8>>,
    variant: Database,
    column: Column,
    key: Seq<u8>,
) -> Result<Option<Seq<u8>>, InspectorErrorView> {
    match read_check(variant, column) {
        Some(e) => Err(e),
        None => Ok(stored_value(store, column, key)),
    }
}

impl DatabaseHandle {
    /// The database the handle is for.
    pub closed spec fn spec_variant(&self) -> Database {
        self.variant
    }

    /// The path of the store.
    pub closed spec fn spec_path(&self) -> Seq<char> {
        self.config.path@
    }

    /// Create a new database handle
    pub fn new(variant: Database, config: DatabaseConfig) -> (r: Self)
        ensures
            r.spec_variant() == variant,
            r.spec_path() == config.path@,
    {
        DatabaseHandle { variant, config }
    }

    /// A handle for the database and store path of validated arguments.
    pub fn from_args(args: &ValidatedFuelCoreInspectorCliArgs) -> (r: Self)
        ensures
            r.spec_variant() == args@.database,
            r.spec_path() == args@.path,
    {
        let config = DatabaseConfig { path: args.database_config().path.clone() };
        DatabaseHandle::new(*args.database(), config)
    }

    /// Get the database variant
    pub fn variant(&self) -> (r: Database)
        ensures
            r == self.spec_variant(),
    {
        self.variant
    }

    /// Get the database configuration
    pub fn config(&self) -> (r: &DatabaseConfig)
        ensures
            r.path@ == self.spec_path(),
    {
        &self.config
    }

    /// Checks a point lookup of `key` in `column` against the handle's database and
    /// addresses it; a column of another database is refused.
    pub fn perform_read(&self, column: &Column, key: &[u8]) -> (r: Result<ReadRequest, InspectorError>)
        ensures
            match r {
                Ok(q) => read_check(self.spec_variant(), *column) is None && q.column == *column
                    && q.key@ == key@,
                Err(e) => read_check(self.spec_variant(), *column) == Some(e@),
            },
    {
        let column_database = column.database();
        if column_database != self.variant {
            return Err(
                InspectorError::ColumnMismatch {
                    column_database,
                    handle_database: self.variant,
                },
            );
        }
        Ok(ReadRequest { column: *column, key: slice_to_vec(key) })
    }

    /// Checks a write of `value` under `key` in `column` against the handle's database and
    /// addresses it; a read-only database refuses every write, and a column of another
    /// database is refused.
    pub fn perform_write(&self, column: &Column, key: &[u8], value: &[u8]) -> (r: Result<
        WriteRequest,
        InspectorError,
    >)
        ensures
            match r {
                Ok(w) => write_check(self.spec_variant(), *column) is None && w.column == *column
                    && w.key@ == key@ && w.value@ == value@,
                Err(e) => write_check(self.spec_variant(), *column) == Some(e@),
            },
    {
        if !self.variant.is_writable() {
            return Err(InspectorError::UnsupportedOperation { database: self.variant });
        }
        let column_database = column.database();
        if column_database != self.variant {
            return Err(
                InspectorError::ColumnMismatch {
                    column_database,
                    handle_database: self.variant,
                },
            );
        }
        Ok(WriteRequest { column: *column, key: slice_to_vec(key), value: slice_to_vec(value) })
    }
}

/// In the store model: writing `value` under `key` in a column of a writable database, then
/// reading `key` in the same column of the same database, gives `value`; a key that no
/// write reached reads as absent. This holds of the engine only as far as the engine
/// behaves as the model says.
pub proof fn lemma_write_then_read(
    store: Map<(Database, u32, Seq<u8>), Seq<u8>>,
    variant: Database,
    column: Column,
    key: Seq<u8>,
    value: Seq<u8>,
    other_key: Seq<u8>,
)
    requires
        column.spec_database() == variant,
        variant.spec_is_writable(),
    ensures
        read_outcome(after_write(store, variant, column, key, value), variant, column, key) == Ok::<
            Option<Seq<u8>>,
            InspectorErrorView,
        >(Some(value)),
        other_key != key && !store.contains_key(address(column, other_key)) ==> read_outcome(
            after_write(store, variant, column, key, value),
            variant,
            column,
            other_key,
        ) == Ok::<Option<Seq<u8>>, InspectorErrorView>(None),
{
}

/// Every write through a handle for the compression database fails with
/// `UnsupportedOperation`; no request reaches the engine, so in the store model the store
/// stays as it was and every later read gives what it gave before.
pub proof fn lemma_read_only_region(
    store: Map<(Database, u32, Seq<u8>), Seq<u8>>,
    column: Column,
    key: Seq<u8>,
    value: Seq<u8>,
    read_column: Column,
    read_key: Seq<u8>,
)
    ensures
        write_check(Database::Compression, column) == Some(
            InspectorErrorView::UnsupportedOperation { database: Database::Compression },
        ),
        after_write(store, Database::Compression, column, key, value) == store,
        read_outcome(
            after_write(store, Database::Compression, column, key, value),
            Database::Compression,
            read_column,
            read_key,
        ) == read_outcome(store, Database::Compression, read_column, read_key),
{
}

/// A column resolved against database `a` is refused by a handle for any other database
/// `b`, for reads and for writes, and the refused write changes nothing.
pub proof fn lemma_cross_database_rejected(
    a: Database,
    b: Database,
    name: Seq<char>,
    store: Map<(Database, u32, Seq<u8>), Seq<u8>>,
    key: Seq<u8>,
    value: Seq<u8>,
)
    requires
        a != b,
        spec_parse_column(a, name) is Ok,
    ensures
        ({
            let c = spec_parse_column(a, name)->Ok_0;
            &&& read_check(b, c) == Some(
                InspectorErrorView::ColumnMismatch { column_database: a, handle_database: b },
            )
            &&& write_check(b, c) is Some
            &&& after_write(store, b, c, key, value) == store
        }),
{
    crate::columns::lemma_find_column(a, name, 0);
}

} // verus!
