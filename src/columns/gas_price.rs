//! Columns of the gas price database.
use vstd::prelude::*;

use crate::columns::canonical_name;

verus! {

/// A column of the gas price database.
#[derive(Debug, Clone, Copy, PartialEq, Eq, Structural)]
pub enum GasPriceColumn {
    /// Metadata column.
    Metadata,
    /// State column.
    State,
    /// Unrecorded blocks column.
    UnrecordedBlocks,
    /// Latest recorded height column.
    LatestRecordedHeight,
}

impl GasPriceColumn {
    /// How many columns the database has.
    pub open spec fn spec_count() -> nat {
        4
    }

    /// The stable numeric id that addresses the column in the store.
    pub open spec fn spec_id(self) -> u32 {
        match self {
            GasPriceColumn::Metadata => 0,
            GasPriceColumn::State => 1,
            GasPriceColumn::UnrecordedBlocks => 2,
            GasPriceColumn::LatestRecordedHeight => 3,
        }
    }

    /// The name by which the column is selected.
    pub open spec fn spec_name(self) -> Seq<char> {
        match self {
            GasPriceColumn::Metadata => "metadata"@,
            GasPriceColumn::State => "state"@,
            GasPriceColumn::UnrecordedBlocks => "unrecorded_blocks"@,
            GasPriceColumn::LatestRecordedHeight => "latest_recorded_height"@,
        }
    }

    /// The position of the column in the registry.
    pub open spec fn spec_index(self) -> nat {
        match self {
            GasPriceColumn::Metadata => 0,
            GasPriceColumn::State => 1,
            GasPriceColumn::UnrecordedBlocks => 2,
            GasPriceColumn::LatestRecordedHeight => 3,
        }
    }

    /// The column at position `i` of the registry.
    pub open spec fn spec_at(i: int) -> Self {
        if i == 0 {
            GasPriceColumn::Metadata
        } else if i == 1 {
            GasPriceColumn::State
        } else if i == 2 {
            GasPriceColumn::UnrecordedBlocks
        } else {
            GasPriceColumn::LatestRecordedHeight
        }
    }

    /// Each column stands in the registry at its own position.
    pub proof fn lemma_index(self)
        ensures
            self.spec_index() < Self::spec_count(),
            Self::spec_at(self.spec_index() as int) == self,
    {
    }

    /// Distinct columns have distinct names, also in canonical form, and distinct ids.
    pub proof fn lemma_distinct(a: Self, b: Self)
        ensures
            canonical_name(a.spec_name()) == canonical_name(b.spec_name()) ==> a == b,
            a.spec_id() == b.spec_id() ==> a == b,
    {
        reveal_strlit("metadata");
        assert(canonical_name("metadata"@).len() == 8);
        reveal_strlit("state");
        assert(canonical_name("state"@).len() == 5);
        reveal_strlit("unrecorded_blocks");
        assert(canonical_name("unrecorded_blocks"@).len() == 17);
        reveal_strlit("latest_recorded_height");
        assert(canonical_name("latest_recorded_height"@).len() == 22);
    }

    /// The stable numeric id of the column.
    pub fn id(&self) -> (r: u32)
        ensures
            r == self.spec_id(),
    {
        match self {
            GasPriceColumn::Metadata => 0,
            GasPriceColumn::State => 1,
            GasPriceColumn::UnrecordedBlocks => 2,
            GasPriceColumn::LatestRecordedHeight => 3,
        }
    }

    /// The name by which the column is selected.
    pub fn name(&self) -> (r: &'static str)
        ensures
            r@ == self.spec_name(),
    {
        match self {
            GasPriceColumn::Metadata => "metadata",
            GasPriceColumn::State => "state",
            GasPriceColumn::UnrecordedBlocks => "unrecorded_blocks",
            GasPriceColumn::LatestRecordedHeight => "latest_recorded_height",
        }
    }

    /// The column at position `i` of the registry.
    pub fn at(i: usize) -> (r: Self)
        requires
            i < Self::spec_count(),
        ensures
            r == Self::spec_at(i as int),
    {
        match i {
            0 => GasPriceColumn::Metadata,
            1 => GasPriceColumn::State,
            2 => GasPriceColumn::UnrecordedBlocks,
            _ => GasPriceColumn::LatestRecordedHeight,
        }
    }
}

} // verus!
