//! Columns of the compression database.
use vstd::prelude::*;

use crate::columns::canonical_name;

verus! {

/// A column of the compression database.
#[derive(Debug, Clone, Copy, PartialEq, Eq, Structural)]
pub enum CompressionColumn {
    /// Compressed blocks.
    CompressedBlocks,
    /// Registry key to address index.
    Address,
    /// Registry key to asset id index.
    AssetId,
    /// Registry key to contract id index.
    ContractId,
    /// Registry key to script code index.
    ScriptCode,
    /// Registry key to predicate code index.
    PredicateCode,
    /// Registry key to reverse key index.
    RegistryIndex,
    /// Keys to evict.
    EvictorCache,
    /// Block timestamps.
    Timestamps,
}

impl CompressionColumn {
    /// How many columns the database has.
    pub open spec fn spec_count() -> nat {
        9
    }

    /// The stable numeric id that addresses the column in the store.
    pub open spec fn spec_id(self) -> u32 {
        match self {
            CompressionColumn::CompressedBlocks => 0,
            CompressionColumn::Address => 1,
            CompressionColumn::AssetId => 2,
            CompressionColumn::ContractId => 3,
            CompressionColumn::ScriptCode => 4,
            CompressionColumn::PredicateCode => 5,
            CompressionColumn::RegistryIndex => 6,
            CompressionColumn::EvictorCache => 7,
            CompressionColumn::Timestamps => 8,
        }
    }

    /// The name by which the column is selected.
    pub open spec fn spec_name(self) -> Seq<char> {
        match self {
            CompressionColumn::CompressedBlocks => "compressed_blocks"@,
            CompressionColumn::Address => "address"@,
            CompressionColumn::AssetId => "asset_id"@,
            CompressionColumn::ContractId => "contract_id"@,
            CompressionColumn::ScriptCode => "script_code"@,
            CompressionColumn::PredicateCode => "predicate_code"@,
            CompressionColumn::RegistryIndex => "registry_index"@,
            CompressionColumn::EvictorCache => "evictor_cache"@,
            CompressionColumn::Timestamps => "timestamps"@,
        }
    }

    /// The position of the column in the registry.
    pub open spec fn spec_index(self) -> nat {
        match self {
            CompressionColumn::CompressedBlocks => 0,
            CompressionColumn::Address => 1,
            CompressionColumn::AssetId => 2,
            CompressionColumn::ContractId => 3,
            CompressionColumn::ScriptCode => 4,
            CompressionColumn::PredicateCode => 5,
            CompressionColumn::RegistryIndex => 6,
            CompressionColumn::EvictorCache => 7,
            CompressionColumn::Timestamps => 8,
        }
    }

    /// The column at position `i` of the registry.
    pub open spec fn spec_at(i: int) -> Self {
        if i == 0 {
            CompressionColumn::CompressedBlocks
        } else if i == 1 {
            CompressionColumn::Address
        } else if i == 2 {
            CompressionColumn::AssetId
        } else if i == 3 {
            CompressionColumn::ContractId
        } else if i == 4 {
            CompressionColumn::ScriptCode
        } else if i == 5 {
            CompressionColumn::PredicateCode
        } else if i == 6 {
            CompressionColumn::RegistryIndex
        } else if i == 7 {
            CompressionColumn::EvictorCache
        } else {
            CompressionColumn::Timestamps
        }
    }

    /// Each column stands in the registry at its own position.
    pub proof fn lemma_index(self)
        ensures
            self.spec_index() < Self::spec_count(),
            Self::spec_at(self.spec_index() as int) == self,
    {
    }

    /// Distinct columns have distinct names, also in canonical form, and distinct ids.
    pub proof fn lemma_distinct(a: Self, b: Self)
        ensures
            canonical_name(a.spec_name()) == canonical_name(b.spec_name()) ==> a == b,
            a.spec_id() == b.spec_id() ==> a == b,
    {
        reveal_strlit("compressed_blocks");
        assert(canonical_name("compressed_blocks"@).len() == 17);
        reveal_strlit("address");
        assert(canonical_name("address"@).len() == 7);
        reveal_strlit("asset_id");
        assert(canonical_name("asset_id"@).len() == 8);
        reveal_strlit("contract_id");
        assert(canonical_name("contract_id"@).len() == 11);
        assert(canonical_name("contract_id"@)[0] == 'c');
        reveal_strlit("script_code");
        assert(canonical_name("script_code"@).len() == 11);
        assert(canonical_name("script_code"@)[0] == 's');
        reveal_strlit("predicate_code");
        assert(canonical_name("predicate_code"@).len() == 14);
        assert(canonical_name("predicate_code"@)[0] == 'p');
        reveal_strlit("registry_index");
        assert(canonical_name("registry_index"@).len() == 14);
        assert(canonical_name("registry_index"@)[0] == 'r');
        reveal_strlit("evictor_cache");
        assert(canonical_name("evictor_cache"@).len() == 13);
        reveal_strlit("timestamps");
        assert(canonical_name("timestamps"@).len() == 10);
    }

    /// The stable numeric id of the column.
    pub fn id(&self) -> (r: u32)
        ensures
            r == self.spec_id(),
    {
        match self {
            CompressionColumn::CompressedBlocks => 0,
            CompressionColumn::Address => 1,
            CompressionColumn::AssetId => 2,
            CompressionColumn::ContractId => 3,
            CompressionColumn::ScriptCode => 4,
            CompressionColumn::PredicateCode => 5,
            CompressionColumn::RegistryIndex => 6,
            CompressionColumn::EvictorCache => 7,
            CompressionColumn::Timestamps => 8,
        }
    }

    /// The name by which the column is selected.
    pub fn name(&self) -> (r: &'static str)
        ensures
            r@ == self.spec_name(),
    {
        match self {
            CompressionColumn::CompressedBlocks => "compressed_blocks",
            CompressionColumn::Address => "address",
            CompressionColumn::AssetId => "asset_id",
            CompressionColumn::ContractId => "contract_id",
            CompressionColumn::ScriptCode => "script_code",
            CompressionColumn::PredicateCode => "predicate_code",
            CompressionColumn::RegistryIndex => "registry_index",
            CompressionColumn::EvictorCache => "evictor_cache",
            CompressionColumn::Timestamps => "timestamps",
        }
    }

    /// The column at position `i` of the registry.
    pub fn at(i: usize) -> (r: Self)
        requires
            i < Self::spec_count(),
        ensures
            r == Self::spec_at(i as int),
    {
        match i {
            0 => CompressionColumn::CompressedBlocks,
            1 => CompressionColumn::Address,
            2 => CompressionColumn::AssetId,
            3 => CompressionColumn::ContractId,
            4 => CompressionColumn::ScriptCode,
            5 => CompressionColumn::PredicateCode,
            6 => CompressionColumn::RegistryIndex,
            7 => CompressionColumn::EvictorCache,
            _ => CompressionColumn::Timestamps,
        }
    }
}

} // verus!
