//! Columns of the on-chain database.
use vstd::prelude::*;

use crate::columns::canonical_name;

verus! {

/// A column of the on-chain database.
#[derive(Debug, Clone, Copy, PartialEq, Eq, Structural)]
pub enum OnchainColumn {
    /// Metadata about the blockchain.
    Metadata,
    /// Contract bytecode.
    ContractsRawCode,
    /// Contract storage slots.
    ContractsState,
    /// Latest UTXO of each contract.
    ContractsLatestUtxo,
    /// Asset balances of contracts.
    ContractsAssets,
    /// Unspent coins.
    Coins,
    /// Transactions.
    Transactions,
    /// Blocks.
    FuelBlocks,
    /// Merkle data of the block tree.
    FuelBlockMerkleData,
    /// Merkle metadata of the block tree.
    FuelBlockMerkleMetadata,
    /// Merkle data of contract assets.
    ContractsAssetsMerkleData,
    /// Merkle metadata of contract assets.
    ContractsAssetsMerkleMetadata,
    /// Merkle data of contract state.
    ContractsStateMerkleData,
    /// Merkle metadata of contract state.
    ContractsStateMerkleMetadata,
    /// Messages.
    Messages,
    /// Ids of processed transactions.
    ProcessedTransactions,
    /// Consensus data of sealed blocks.
    FuelBlockConsensus,
    /// Versions of the consensus parameters.
    ConsensusParametersVersions,
    /// Versions of the state transition bytecode.
    StateTransitionBytecodeVersions,
    /// Uploaded bytecodes.
    UploadedBytecodes,
    /// Blobs.
    Blobs,
    /// Progress of the genesis state import.
    GenesisMetadata,
}

impl OnchainColumn {
    /// How many columns the database has.
    pub open spec fn spec_count() -> nat {
        22
    }

    /// The stable numeric id that addresses the column in the store.
    pub open spec fn spec_id(self) -> u32 {
        match self {
            OnchainColumn::Metadata => 0,
            OnchainColumn::ContractsRawCode => 1,
            OnchainColumn::ContractsState => 2,
            OnchainColumn::ContractsLatestUtxo => 3,
            OnchainColumn::ContractsAssets => 4,
            OnchainColumn::Coins => 5,
            OnchainColumn::Transactions => 6,
            OnchainColumn::FuelBlocks => 7,
            OnchainColumn::FuelBlockMerkleData => 8,
            OnchainColumn::FuelBlockMerkleMetadata => 9,
            OnchainColumn::ContractsAssetsMerkleData => 10,
            OnchainColumn::ContractsAssetsMerkleMetadata => 11,
            OnchainColumn::ContractsStateMerkleData => 12,
            OnchainColumn::ContractsStateMerkleMetadata => 13,
            OnchainColumn::Messages => 14,
            OnchainColumn::ProcessedTransactions => 15,
            OnchainColumn::FuelBlockConsensus => 16,
            OnchainColumn::ConsensusParametersVersions => 17,
            OnchainColumn::StateTransitionBytecodeVersions => 18,
            OnchainColumn::UploadedBytecodes => 19,
            OnchainColumn::Blobs => 20,
            OnchainColumn::GenesisMetadata => 21,
        }
    }

    /// The name by which the column is selected.
    pub open spec fn spec_name(self) -> Seq<char> {
        match self {
            OnchainColumn::Metadata => "metadata"@,
            OnchainColumn::ContractsRawCode => "contracts_raw_code"@,
            OnchainColumn::ContractsState => "contracts_state"@,
            OnchainColumn::ContractsLatestUtxo => "contracts_latest_utxo"@,
            OnchainColumn::ContractsAssets => "contracts_assets"@,
            OnchainColumn::Coins => "coins"@,
            OnchainColumn::Transactions => "transactions"@,
            OnchainColumn::FuelBlocks => "fuel_blocks"@,
            OnchainColumn::FuelBlockMerkleData => "fuel_block_merkle_data"@,
            OnchainColumn::FuelBlockMerkleMetadata => "fuel_block_merkle_metadata"@,
            OnchainColumn::ContractsAssetsMerkleData => "contracts_assets_merkle_data"@,
            OnchainColumn::ContractsAssetsMerkleMetadata => "contracts_assets_merkle_metadata"@,
            OnchainColumn::ContractsStateMerkleData => "contracts_state_merkle_data"@,
            OnchainColumn::ContractsStateMerkleMetadata => "contracts_state_merkle_metadata"@,
            OnchainColumn::Messages => "messages"@,
            OnchainColumn::ProcessedTransactions => "processed_transactions"@,
            OnchainColumn::FuelBlockConsensus => "fuel_block_consensus"@,
            OnchainColumn::ConsensusParametersVersions => "consensus_parameters_versions"@,
            OnchainColumn::StateTransitionBytecodeVersions => "state_transition_bytecode_versions"@,
            OnchainColumn::UploadedBytecodes => "uploaded_bytecodes"@,
            OnchainColumn::Blobs => "blobs"@,
            OnchainColumn::GenesisMetadata => "genesis_metadata"@,
        }
    }

    /// The position of the column in the registry.
    pub open spec fn spec_index(self) -> nat {
        match self {
            OnchainColumn::Metadata => 0,
            OnchainColumn::ContractsRawCode => 1,
            OnchainColumn::ContractsState => 2,
            OnchainColumn::ContractsLatestUtxo => 3,
            OnchainColumn::ContractsAssets => 4,
            OnchainColumn::Coins => 5,
            OnchainColumn::Transactions => 6,
            OnchainColumn::FuelBlocks => 7,
            OnchainColumn::FuelBlockMerkleData => 8,
            OnchainColumn::FuelBlockMerkleMetadata => 9,
            OnchainColumn::ContractsAssetsMerkleData => 10,
            OnchainColumn::ContractsAssetsMerkleMetadata => 11,
            OnchainColumn::ContractsStateMerkleData => 12,
            OnchainColumn::ContractsStateMerkleMetadata => 13,
            OnchainColumn::Messages => 14,
            OnchainColumn::ProcessedTransactions => 15,
            OnchainColumn::FuelBlockConsensus => 16,
            OnchainColumn::ConsensusParametersVersions => 17,
            OnchainColumn::StateTransitionBytecodeVersions => 18,
            OnchainColumn::UploadedBytecodes => 19,
            OnchainColumn::Blobs => 20,
            OnchainColumn::GenesisMetadata => 21,
        }
    }

    /// The column at position `i` of the registry.
    pub open spec fn spec_at(i: int) -> Self {
        if i == 0 {
            OnchainColumn::Metadata
        } else if i == 1 {
            OnchainColumn::ContractsRawCode
        } else if i == 2 {
            OnchainColumn::ContractsState
        } else if i == 3 {
            OnchainColumn::ContractsLatestUtxo
        } else if i == 4 {
            OnchainColumn::ContractsAssets
        } else if i == 5 {
            OnchainColumn::Coins
        } else if i == 6 {
            OnchainColumn::Transactions
        } else if i == 7 {
            OnchainColumn::FuelBlocks
        } else if i == 8 {
            OnchainColumn::FuelBlockMerkleData
        } else if i == 9 {
            OnchainColumn::FuelBlockMerkleMetadata
        } else if i == 10 {
            OnchainColumn::ContractsAssetsMerkleData
        } else if i == 11 {
            OnchainColumn::ContractsAssetsMerkleMetadata
        } else if i == 12 {
            OnchainColumn::ContractsStateMerkleData
        } else if i == 13 {
            OnchainColumn::ContractsStateMerkleMetadata
        } else if i == 14 {
            OnchainColumn::Messages
        } else if i == 15 {
            OnchainColumn::ProcessedTransactions
        } else if i == 16 {
            OnchainColumn::FuelBlockConsensus
        } else if i == 17 {
            OnchainColumn::ConsensusParametersVersions
        } else if i == 18 {
            OnchainColumn::StateTransitionBytecodeVersions
        } else if i == 19 {
            OnchainColumn::UploadedBytecodes
        } else if i == 20 {
            OnchainColumn::Blobs
        } else {
            OnchainColumn::GenesisMetadata
        }
    }

    /// Each column stands in the registry at its own position.
    pub proof fn lemma_index(self)
        ensures
            self.spec_index() < Self::spec_count(),
            Self::spec_at(self.spec_index() as int) == self,
    {
    }

    /// Distinct columns have distinct names, also in canonical form, and distinct ids.
    pub proof fn lemma_distinct(a: Self, b: Self)
        ensures
            canonical_name(a.spec_name()) == canonical_name(b.spec_name()) ==> a == b,
            a.spec_id() == b.spec_id() ==> a == b,
    {
        reveal_strlit("metadata");
        assert(canonical_name("metadata"@).len() == 8);
        assert(canonical_name("metadata"@)[2] == 't');
        reveal_strlit("contracts_raw_code");
        assert(canonical_name("contracts_raw_code"@).len() == 18);
        assert(canonical_name("contracts_raw_code"@)[0] == 'c');
        reveal_strlit("contracts_state");
        assert(canonical_name("contracts_state"@).len() == 15);
        reveal_strlit("contracts_latest_utxo");
        assert(canonical_name("contracts_latest_utxo"@).len() == 21);
        reveal_strlit("contracts_assets");
        assert(canonical_name("contracts_assets"@).len() == 16);
        assert(canonical_name("contracts_assets"@)[0] == 'c');
        reveal_strlit("coins");
        assert(canonical_name("coins"@).len() == 5);
        assert(canonical_name("coins"@)[0] == 'c');
        reveal_strlit("transactions");
        assert(canonical_name("transactions"@).len() == 12);
        reveal_strlit("fuel_blocks");
        assert(canonical_name("fuel_blocks"@).len() == 11);
        reveal_strlit("fuel_block_merkle_data");
        assert(canonical_name("fuel_block_merkle_data"@).len() == 22);
        assert(canonical_name("fuel_block_merkle_data"@)[0] == 'f');
        reveal_strlit("fuel_block_merkle_metadata");
        assert(canonical_name("fuel_block_merkle_metadata"@).len() == 26);
        reveal_strlit("contracts_assets_merkle_data");
        assert(canonical_name("contracts_assets_merkle_data"@).len() == 28);
        reveal_strlit("contracts_assets_merkle_metadata");
        assert(canonical_name("contracts_assets_merkle_metadata"@).len() == 32);
        reveal_strlit("contracts_state_merkle_data");
        assert(canonical_name("contracts_state_merkle_data"@).len() == 27);
        reveal_strlit("contracts_state_merkle_metadata");
        assert(canonical_name("contracts_state_merkle_metadata"@).len() == 31);
        reveal_strlit("messages");
        assert(canonical_name("messages"@).len() == 8);
        assert(canonical_name("messages"@)[2] == 's');
        reveal_strlit("processed_transactions");
        assert(canonical_name("processed_transactions"@).len() == 22);
        assert(canonical_name("processed_transactions"@)[0] == 'p');
        reveal_strlit("fuel_block_consensus");
        assert(canonical_name("fuel_block_consensus"@).len() == 20);
        reveal_strlit("consensus_parameters_versions");
        assert(canonical_name("consensus_parameters_versions"@).len() == 29);
        reveal_strlit("state_transition_bytecode_versions");
        assert(canonical_name("state_transition_bytecode_versions"@).len() == 34);
        reveal_strlit("uploaded_bytecodes");
        assert(canonical_name("uploaded_bytecodes"@).len() == 18);
        assert(canonical_name("uploaded_bytecodes"@)[0] == 'u');
        reveal_strlit("blobs");
        assert(canonical_name("blobs"@).len() == 5);
        assert(canonical_name("blobs"@)[0] == 'b');
        reveal_strlit("genesis_metadata");
        assert(canonical_name("genesis_metadata"@).len() == 16);
        assert(canonical_name("genesis_metadata"@)[0] == 'g');
    }

    /// The stable numeric id of the column.
    pub fn id(&self) -> (r: u32)
        ensures
            r == self.spec_id(),
    {
        match self {
            OnchainColumn::Metadata => 0,
            OnchainColumn::ContractsRawCode => 1,
            OnchainColumn::ContractsState => 2,
            OnchainColumn::ContractsLatestUtxo => 3,
            OnchainColumn::ContractsAssets => 4,
            OnchainColumn::Coins => 5,
            OnchainColumn::Transactions => 6,
            OnchainColumn::FuelBlocks => 7,
            OnchainColumn::FuelBlockMerkleData => 8,
            OnchainColumn::FuelBlockMerkleMetadata => 9,
            OnchainColumn::ContractsAssetsMerkleData => 10,
            OnchainColumn::ContractsAssetsMerkleMetadata => 11,
            OnchainColumn::ContractsStateMerkleData => 12,
            OnchainColumn::ContractsStateMerkleMetadata => 13,
            OnchainColumn::Messages => 14,
            OnchainColumn::ProcessedTransactions => 15,
            OnchainColumn::FuelBlockConsensus => 16,
            OnchainColumn::ConsensusParametersVersions => 17,
            OnchainColumn::StateTransitionBytecodeVersions => 18,
            OnchainColumn::UploadedBytecodes => 19,
            OnchainColumn::Blobs => 20,
            OnchainColumn::GenesisMetadata => 21,
        }
    }

    /// The name by which the column is selected.
    pub fn name(&self) -> (r: &'static str)
        ensures
            r@ == self.spec_name(),
    {
        match self {
            OnchainColumn::Metadata => "metadata",
            OnchainColumn::ContractsRawCode => "contracts_raw_code",
            OnchainColumn::ContractsState => "contracts_state",
            OnchainColumn::ContractsLatestUtxo => "contracts_latest_utxo",
            OnchainColumn::ContractsAssets => "contracts_assets",
            OnchainColumn::Coins => "coins",
            OnchainColumn::Transactions => "transactions",
            OnchainColumn::FuelBlocks => "fuel_blocks",
            OnchainColumn::FuelBlockMerkleData => "fuel_block_merkle_data",
            OnchainColumn::FuelBlockMerkleMetadata => "fuel_block_merkle_metadata",
            OnchainColumn::ContractsAssetsMerkleData => "contracts_assets_merkle_data",
            OnchainColumn::ContractsAssetsMerkleMetadata => "contracts_assets_merkle_metadata",
            OnchainColumn::ContractsStateMerkleData => "contracts_state_merkle_data",
            OnchainColumn::ContractsStateMerkleMetadata => "contracts_state_merkle_metadata",
            OnchainColumn::Messages => "messages",
            OnchainColumn::ProcessedTransactions => "processed_transactions",
            OnchainColumn::FuelBlockConsensus => "fuel_block_consensus",
            OnchainColumn::ConsensusParametersVersions => "consensus_parameters_versions",
            OnchainColumn::StateTransitionBytecodeVersions => "state_transition_bytecode_versions",
            OnchainColumn::UploadedBytecodes => "uploaded_bytecodes",
            OnchainColumn::Blobs => "blobs",
            OnchainColumn::GenesisMetadata => "genesis_metadata",
        }
    }

    /// The column at position `i` of the registry.
    pub fn at(i: usize) -> (r: Self)
        requires
            i < Self::spec_count(),
        ensures
            r == Self::spec_at(i as int),
    {
        match i {
            0 => OnchainColumn::Metadata,
            1 => OnchainColumn::ContractsRawCode,
            2 => OnchainColumn::ContractsState,
            3 => OnchainColumn::ContractsLatestUtxo,
            4 => OnchainColumn::ContractsAssets,
            5 => OnchainColumn::Coins,
            6 => OnchainColumn::Transactions,
            7 => OnchainColumn::FuelBlocks,
            8 => OnchainColumn::FuelBlockMerkleData,
            9 => OnchainColumn::FuelBlockMerkleMetadata,
            10 => OnchainColumn::ContractsAssetsMerkleData,
            11 => OnchainColumn::ContractsAssetsMerkleMetadata,
            12 => OnchainColumn::ContractsStateMerkleData,
            13 => OnchainColumn::ContractsStateMerkleMetadata,
            14 => OnchainColumn::Messages,
            15 => OnchainColumn::ProcessedTransactions,
            16 => OnchainColumn::FuelBlockConsensus,
            17 => OnchainColumn::ConsensusParametersVersions,
            18 => OnchainColumn::StateTransitionBytecodeVersions,
            19 => OnchainColumn::UploadedBytecodes,
            20 => OnchainColumn::Blobs,
            _ => OnchainColumn::GenesisMetadata,
        }
    }
}

} // verus!
