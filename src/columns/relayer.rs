//! Columns of the relayer database.
use vstd::prelude::*;

use crate::columns::canonical_name;

verus! {

/// A column of the relayer database.
#[derive(Debug, Clone, Copy, PartialEq, Eq, Structural)]
pub enum RelayerColumn {
    /// Metadata about the relayer storage.
    Metadata,
    /// History of the relayer.
    History,
}

impl RelayerColumn {
    /// How many columns the database has.
    pub open spec fn spec_count() -> nat {
        2
    }

    /// The stable numeric id that addresses the column in the store.
    pub open spec fn spec_id(self) -> u32 {
        match self {
            RelayerColumn::Metadata => 0,
            RelayerColumn::History => 1,
        }
    }

    /// The name by which the column is selected.
    pub open spec fn spec_name(self) -> Seq<char> {
        match self {
            RelayerColumn::Metadata => "metadata"@,
            RelayerColumn::History => "history"@,
        }
    }

    /// The position of the column in the registry.
    pub open spec fn spec_index(self) -> nat {
        match self {
            RelayerColumn::Metadata => 0,
            RelayerColumn::History => 1,
        }
    }

    /// The column at position `i` of the registry.
    pub open spec fn spec_at(i: int) -> Self {
        if i == 0 {
            RelayerColumn::Metadata
        } else {
            RelayerColumn::History
        }
    }

    /// Each column stands in the registry at its own position.
    pub proof fn lemma_index(self)
        ensures
            self.spec_index() < Self::spec_count(),
            Self::spec_at(self.spec_index() as int) == self,
    {
    }

    /// Distinct columns have distinct names, also in canonical form, and distinct ids.
    pub proof fn lemma_distinct(a: Self, b: Self)
        ensures
            canonical_name(a.spec_name()) == canonical_name(b.spec_name()) ==> a == b,
            a.spec_id() == b.spec_id() ==> a == b,
    {
        reveal_strlit("metadata");
        assert(canonical_name("metadata"@).len() == 8);
        reveal_strlit("history");
        assert(canonical_name("history"@).len() == 7);
    }

    /// The stable numeric id of the column.
    pub fn id(&self) -> (r: u32)
        ensures
            r == self.spec_id(),
    {
        match self {
            RelayerColumn::Metadata => 0,
            RelayerColumn::History => 1,
        }
    }

    /// The name by which the column is selected.
    pub fn name(&self) -> (r: &'static str)
        ensures
            r@ == self.spec_name(),
    {
        match self {
            RelayerColumn::Metadata => "metadata",
            RelayerColumn::History => "history",
        }
    }

    /// The column at position `i` of the registry.
    pub fn at(i: usize) -> (r: Self)
        requires
            i < Self::spec_count(),
        ensures
            r == Self::spec_at(i as int),
    {
        match i {
            0 => RelayerColumn::Metadata,
            _ => RelayerColumn::History,
        }
    }
}

} // verus!
