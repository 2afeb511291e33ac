//! The column registry: the columns of each database, their names and ids, and the
//! resolution of a column name against a database.
use vstd::prelude::*;

use crate::databases::Database;
use crate::error::{string_views, InspectorError, InspectorErrorView};

pub mod compression;
pub mod gas_price;
pub mod off_chain;
pub mod on_chain;
pub mod relayer;

pub use self::compression::CompressionColumn;
pub use self::gas_price::GasPriceColumn;
pub use self::off_chain::OffChainColumn;
pub use self::on_chain::OnchainColumn;
pub use self::relayer::RelayerColumn;

verus! {

/// A column of one of the databases, bound to that database.
#[derive(Debug, Clone, Copy, PartialEq, Eq, Structural)]
pub enum Column {
    /// Onchain column
    Onchain(OnchainColumn),
    /// Offchain column
    Offchain(OffChainColumn),
    /// Compression column
    Compression(CompressionColumn),
    /// Gas price column
    GasPrice(GasPriceColumn),
    /// Relayer column
    Relayer(RelayerColumn),
}

impl Column {
    /// The database that owns the column.
    pub open spec fn spec_database(self) -> Database {
        match self {
            Column::Onchain(_) => Database::OnChain,
            Column::Offchain(_) => Database::OffChain,
            Column::Compression(_) => Database::Compression,
            Column::GasPrice(_) => Database::GasPrice,
            Column::Relayer(_) => Database::Relayer,
        }
    }

    /// The name by which the column is selected.
    pub open spec fn spec_name(self) -> Seq<char> {
        match self {
            Column::Onchain(c) => c.spec_name(),
            Column::Offchain(c) => c.spec_name(),
            Column::Compression(c) => c.spec_name(),
            Column::GasPrice(c) => c.spec_name(),
            Column::Relayer(c) => c.spec_name(),
        }
    }

    /// The stable numeric id of the column within its database.
    pub open spec fn spec_id(self) -> u32 {
        match self {
            Column::Onchain(c) => c.spec_id(),
            Column::Offchain(c) => c.spec_id(),
            Column::Compression(c) => c.spec_id(),
            Column::GasPrice(c) => c.spec_id(),
            Column::Relayer(c) => c.spec_id(),
        }
    }

    /// The database that owns the column.
    pub fn database(&self) -> (r: Database)
        ensures
            r == self.spec_database(),
    {
        match self {
            Column::Onchain(_) => Database::OnChain,
            Column::Offchain(_) => Database::OffChain,
            Column::Compression(_) => Database::Compression,
            Column::GasPrice(_) => Database::GasPrice,
            Column::Relayer(_) => Database::Relayer,
        }
    }

    /// The name by which the column is selected.
    pub fn name(&self) -> (r: &'static str)
        ensures
            r@ == self.spec_name(),
    {
        match self {
            Column::Onchain(c) => c.name(),
            Column::Offchain(c) => c.name(),
            Column::Compression(c) => c.name(),
            Column::GasPrice(c) => c.name(),
            Column::Relayer(c) => c.name(),
        }
    }

    /// The stable numeric id of the column within its database.
    pub fn id(&self) -> (r: u32)
        ensures
            r == self.spec_id(),
    {
        match self {
            Column::Onchain(c) => c.id(),
            Column::Offchain(c) => c.id(),
            Column::Compression(c) => c.id(),
            Column::GasPrice(c) => c.id(),
            Column::Relayer(c) => c.id(),
        }
    }

    /// Returns the onchain column if it is one.
    pub fn as_onchain(&self) -> (r: Option<&OnchainColumn>)
        ensures
            match self {
                Column::Onchain(c) => r == Some(c),
                _ => r is None,
            },
    {
        match self {
            Column::Onchain(column) => Some(column),
            _ => None,
        }
    }

    /// Returns the offchain column if it is one.
    pub fn as_offchain(&self) -> (r: Option<&OffChainColumn>)
        ensures
            match self {
                Column::Offchain(c) => r == Some(c),
                _ => r is None,
            },
    {
        match self {
            Column::Offchain(column) => Some(column),
            _ => None,
        }
    }

    /// Returns the compression column if it is one.
    pub fn as_compression(&self) -> (r: Option<&CompressionColumn>)
        ensures
            match self {
                Column::Compression(c) => r == Some(c),
                _ => r is None,
            },
    {
        match self {
            Column::Compression(column) => Some(column),
            _ => None,
        }
    }

    /// Returns the gas price column if it is one.
    pub fn as_gas_price(&self) -> (r: Option<&GasPriceColumn>)
        ensures
            match self {
                Column::GasPrice(c) => r == Some(c),
                _ => r is None,
            },
    {
        match self {
            Column::GasPrice(column) => Some(column),
            _ => None,
        }
    }

    /// Returns the relayer column if it is one.
    pub fn as_relayer(&self) -> (r: Option<&RelayerColumn>)
        ensures
            match self {
                Column::Relayer(c) => r == Some(c),
                _ => r is None,
            },
    {
        match self {
            Column::Relayer(column) => Some(column),
            _ => None,
        }
    }
}

impl From<OnchainColumn> for Column {
    fn from(column: OnchainColumn) -> Self {
        Column::Onchain(column)
    }
}

impl vstd::std_specs::convert::FromSpecImpl<OnchainColumn> for Column {
    open spec fn obeys_from_spec() -> bool {
        true
    }

    open spec fn from_spec(v: OnchainColumn) -> Self {
        Column::Onchain(v)
    }
}

impl From<OffChainColumn> for Column {
    fn from(column: OffChainColumn) -> Self {
        Column::Offchain(column)
    }
}

impl vstd::std_specs::convert::FromSpecImpl<OffChainColumn> for Column {
    open spec fn obeys_from_spec() -> bool {
        true
    }

    open spec fn from_spec(v: OffChainColumn) -> Self {
        Column::Offchain(v)
    }
}

impl From<CompressionColumn> for Column {
    fn from(column: CompressionColumn) -> Self {
        Column::Compression(column)
    }
}

impl vstd::std_specs::convert::FromSpecImpl<CompressionColumn> for Column {
    open spec fn obeys_from_spec() -> bool {
        true
    }

    open spec fn from_spec(v: CompressionColumn) -> Self {
        Column::Compression(v)
    }
}

impl From<GasPriceColumn> for Column {
    fn from(column: GasPriceColumn) -> Self {
        Column::GasPrice(column)
    }
}

impl vstd::std_specs::convert::FromSpecImpl<GasPriceColumn> for Column {
    open spec fn obeys_from_spec() -> bool {
        true
    }

    open spec fn from_spec(v: GasPriceColumn) -> Self {
        Column::GasPrice(v)
    }
}

impl From<RelayerColumn> for Column {
    fn from(column: RelayerColumn) -> Self {
        Column::Relayer(column)
    }
}

impl vstd::std_specs::convert::FromSpecImpl<RelayerColumn> for Column {
    open spec fn obeys_from_spec() -> bool {
        true
    }

    open spec fn from_spec(v: RelayerColumn) -> Self {
        Column::Relayer(v)
    }
}

/// The ASCII lower-case form of a character; every other character stays as it is.
pub open spec fn ascii_lower(c: char) -> char {
    if 'A' <= c && c <= 'Z' {
        ((c as u32) + 32) as char
    } else {
        c
    }
}

/// The canonical form of a column name: its ASCII letters in lower case. Names are compared
/// in this form, so `METADATA` and `Metadata` select the column `metadata`.
pub open spec fn canonical_name(s: Seq<char>) -> Seq<char> {
    s.map_values(|c: char| ascii_lower(c))
}

/// The outcome of resolving the name `name` against the database `db`; an unknown name is
/// reported as it was given.
pub open spec fn spec_parse_column(db: Database, name: Seq<char>) -> Result<Column, InspectorErrorView> {
    match db.spec_resolve(name) {
        Some(c) => Ok(c),
        None => Err(
            InspectorErrorView::UnknownColumn {
                name,
                database: db,
                known_names: db.spec_column_names(),
            },
        ),
    }
}

impl Database {
    /// How many columns the database has.
    pub open spec fn spec_column_count(self) -> nat {
        match self {
            Database::OnChain => OnchainColumn::spec_count(),
            Database::OffChain => OffChainColumn::spec_count(),
            Database::Compression => CompressionColumn::spec_count(),
            Database::GasPrice => GasPriceColumn::spec_count(),
            Database::Relayer => RelayerColumn::spec_count(),
        }
    }

    /// The column at position `i` of the database's registry.
    pub open spec fn spec_column_at(self, i: int) -> Column {
        match self {
            Database::OnChain => Column::Onchain(OnchainColumn::spec_at(i)),
            Database::OffChain => Column::Offchain(OffChainColumn::spec_at(i)),
            Database::Compression => Column::Compression(CompressionColumn::spec_at(i)),
            Database::GasPrice => Column::GasPrice(GasPriceColumn::spec_at(i)),
            Database::Relayer => Column::Relayer(RelayerColumn::spec_at(i)),
        }
    }

    /// The names of the database's columns, in registry order.
    pub open spec fn spec_column_names(self) -> Seq<Seq<char>> {
        Seq::new(self.spec_column_count(), |i: int| self.spec_column_at(i).spec_name())
    }

    /// Whether `name` selects one of the database's columns, compared in canonical form.
    pub open spec fn spec_knows_name(self, name: Seq<char>) -> bool {
        exists|i: int|
            0 <= i < self.spec_column_count() && canonical_name(#[trigger] self.spec_column_names()[i])
                == canonical_name(name)
    }

    /// The first column at or after position `from` whose name agrees with `name` in
    /// canonical form.
    pub open spec fn spec_find_column(self, name: Seq<char>, from: int) -> Option<Column>
        decreases self.spec_column_count() - from,
    {
        if from < 0 || from >= self.spec_column_count() {
            None
        } else if canonical_name(self.spec_column_at(from).spec_name()) == canonical_name(name) {
            Some(self.spec_column_at(from))
        } else {
            self.spec_find_column(name, from + 1)
        }
    }

    /// The column of the database that the name `name` selects, if any.
    pub open spec fn spec_resolve(self, name: Seq<char>) -> Option<Column> {
        self.spec_find_column(name, 0)
    }

    /// How many columns the database has.
    pub fn column_count(&self) -> (r: usize)
        ensures
            r == self.spec_column_count(),
    {
        match self {
            Database::OnChain => 22,
            Database::OffChain => 18,
            Database::Compression => 9,
            Database::GasPrice => 4,
            Database::Relayer => 2,
        }
    }

    /// The column at position `i` of the database's registry.
    pub fn column_at(&self, i: usize) -> (r: Column)
        requires
            i < self.spec_column_count(),
        ensures
            r == self.spec_column_at(i as int),
    {
        match self {
            Database::OnChain => Column::Onchain(OnchainColumn::at(i)),
            Database::OffChain => Column::Offchain(OffChainColumn::at(i)),
            Database::Compression => Column::Compression(CompressionColumn::at(i)),
            Database::GasPrice => Column::GasPrice(GasPriceColumn::at(i)),
            Database::Relayer => Column::Relayer(RelayerColumn::at(i)),
        }
    }

    /// The names of the database's columns, in registry order.
    pub fn column_names(&self) -> (r: Vec<String>)
        ensures
            string_views(r@) == self.spec_column_names(),
    {
        let n = self.column_count();
        let mut names: Vec<String> = Vec::new();
        let mut i: usize = 0;
        while i < n
            invariant
                n == self.spec_column_count(),
                i <= n,
                names@.len() == i,
                forall|j: int| 0 <= j < i ==> (#[trigger] names@[j])@ == self.spec_column_at(j).spec_name(),
            decreases n - i,
        {
            names.push(self.column_at(i).name().to_owned());
            i = i + 1;
        }
        assert(string_views(names@) =~= self.spec_column_names());
        names
    }

    /// Resolves a column name against the database, ignoring ASCII case: the column of that
    /// name, or an error that gives the name as it came and lists every column name the
    /// database has.
    pub fn parse_column_for_database(&self, column: &str) -> (r: Result<Column, InspectorError>)
        ensures
            match r {
                Ok(c) => spec_parse_column(*self, column@) == Ok::<Column, InspectorErrorView>(c),
                Err(e) => spec_parse_column(*self, column@) == Err::<Column, InspectorErrorView>(e@),
            },
    {
        let n = self.column_count();
        let mut i: usize = 0;
        while i < n
            invariant
                n == self.spec_column_count(),
                i <= n,
                self.spec_resolve(column@) == self.spec_find_column(column@, i as int),
            decreases n - i,
        {
            let candidate = self.column_at(i);
            if same_canonical_name(candidate.name(), column) {
                return Ok(candidate);
            }
            i = i + 1;
        }
        Err(
            InspectorError::UnknownColumn {
                name: column.to_owned(),
                database: *self,
                known_names: self.column_names(),
            },
        )
    }
}

pub(crate) proof fn lemma_find_column(db: Database, name: Seq<char>, from: int)
    requires
        0 <= from <= db.spec_column_count(),
    ensures
        db.spec_find_column(name, from) is Some <==> exists|i: int|
            from <= i < db.spec_column_count() && canonical_name(db.spec_column_names()[i])
                == canonical_name(name),
        db.spec_find_column(name, from) matches Some(c) ==> c.spec_database() == db
            && canonical_name(c.spec_name()) == canonical_name(name),
    decreases db.spec_column_count() - from,
{
    if from < db.spec_column_count() {
        lemma_find_column(db, name, from + 1);
        let names = db.spec_column_names();
        if canonical_name(db.spec_column_at(from).spec_name()) != canonical_name(name) {
            assert forall|i: int|
                from <= i < db.spec_column_count() && canonical_name(names[i]) == canonical_name(
                    name,
                ) implies from + 1 <= i by {
                assert(names[from] == db.spec_column_at(from).spec_name());
            }
        } else {
            assert(canonical_name(names[from]) == canonical_name(name));
        }
    }
}

/// Every column stands in the registry of the database that owns it.
pub proof fn lemma_column_in_registry(c: Column)
    ensures
        c.spec_database().spec_column_names().contains(c.spec_name()),
        c.spec_database().spec_knows_name(c.spec_name()),
{
    let db = c.spec_database();
    let i = match c {
        Column::Onchain(x) => {
            x.lemma_index();
            x.spec_index()
        },
        Column::Offchain(x) => {
            x.lemma_index();
            x.spec_index()
        },
        Column::Compression(x) => {
            x.lemma_index();
            x.spec_index()
        },
        Column::GasPrice(x) => {
            x.lemma_index();
            x.spec_index()
        },
        Column::Relayer(x) => {
            x.lemma_index();
            x.spec_index()
        },
    };
    assert(db.spec_column_at(i as int) == c);
    assert(db.spec_column_names()[i as int] == c.spec_name());
}

/// A name that the registry of `db` lists, in any ASCII case, resolves, and to a column of
/// `db` with that name.
pub proof fn lemma_resolve_legal_name(db: Database, name: Seq<char>)
    requires
        db.spec_knows_name(name),
    ensures
        spec_parse_column(db, name) matches Ok(c) && c.spec_database() == db && canonical_name(
            c.spec_name(),
        ) == canonical_name(name),
{
    lemma_find_column(db, name, 0);
}

/// A name that the registry of `db` does not list, in any ASCII case, fails to resolve, and
/// the error gives the name as it came and lists exactly the registry of `db`.
pub proof fn lemma_resolve_unknown_name(db: Database, name: Seq<char>)
    requires
        !db.spec_knows_name(name),
    ensures
        spec_parse_column(db, name) == Err::<Column, InspectorErrorView>(
            InspectorErrorView::UnknownColumn {
                name,
                database: db,
                known_names: db.spec_column_names(),
            },
        ),
{
    lemma_find_column(db, name, 0);
}

/// Within one database, distinct columns have distinct names, also in canonical form, and
/// distinct ids.
pub proof fn lemma_columns_distinct(a: Column, b: Column)
    requires
        a.spec_database() == b.spec_database(),
    ensures
        canonical_name(a.spec_name()) == canonical_name(b.spec_name()) ==> a == b,
        a.spec_id() == b.spec_id() ==> a == b,
{
    match (a, b) {
        (Column::Onchain(x), Column::Onchain(y)) => OnchainColumn::lemma_distinct(x, y),
        (Column::Offchain(x), Column::Offchain(y)) => OffChainColumn::lemma_distinct(x, y),
        (Column::Compression(x), Column::Compression(y)) => CompressionColumn::lemma_distinct(x, y),
        (Column::GasPrice(x), Column::GasPrice(y)) => GasPriceColumn::lemma_distinct(x, y),
        (Column::Relayer(x), Column::Relayer(y)) => RelayerColumn::lemma_distinct(x, y),
        _ => {},
    }
}

/// Every column is what its own name, in any ASCII case, resolves to in the database that
/// owns it.
pub proof fn lemma_resolve_own_name(c: Column, name: Seq<char>)
    requires
        canonical_name(name) == canonical_name(c.spec_name()),
    ensures
        spec_parse_column(c.spec_database(), name) == Ok::<Column, InspectorErrorView>(c),
{
    lemma_column_in_registry(c);
    let db = c.spec_database();
    let i = choose|i: int|
        0 <= i < db.spec_column_count() && canonical_name(#[trigger] db.spec_column_names()[i])
            == canonical_name(c.spec_name());
    assert(canonical_name(db.spec_column_names()[i]) == canonical_name(name));
    lemma_resolve_legal_name(db, name);
    lemma_columns_distinct(spec_parse_column(db, name)->Ok_0, c);
}

/// The ASCII lower-case form of a character.
fn lower_char(c: char) -> (r: char)
    ensures
        r == ascii_lower(c),
{
    if 'A' <= c && c <= 'Z' {
        ((c as u8) + 32) as char
    } else {
        c
    }
}

/// Whether two strings agree in canonical form.
fn same_canonical_name(a: &str, b: &str) -> (r: bool)
    ensures
        r == (canonical_name(a@) == canonical_name(b@)),
{
    let n = a.unicode_len();
    if n != b.unicode_len() {
        assert(canonical_name(a@).len() != canonical_name(b@).len());
        return false;
    }
    let mut i: usize = 0;
    while i < n
        invariant
            n == a@.len(),
            n == b@.len(),
            i <= n,
            forall|j: int| 0 <= j < i ==> ascii_lower(a@[j]) == ascii_lower(b@[j]),
        decreases n - i,
    {
        if lower_char(a.get_char(i)) != lower_char(b.get_char(i)) {
            assert(canonical_name(a@)[i as int] != canonical_name(b@)[i as int]);
            return false;
        }
        i = i + 1;
    }
    assert(canonical_name(a@) =~= canonical_name(b@));
    true
}

} // verus!
