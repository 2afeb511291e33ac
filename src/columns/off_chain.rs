//! Columns of the off-chain database.
use vstd::prelude::*;

use crate::columns::canonical_name;

verus! {

/// A column of the off-chain database.
#[derive(Debug, Clone, Copy, PartialEq, Eq, Structural)]
pub enum OffChainColumn {
    /// Metadata about the blockchain.
    Metadata,
    /// Metadata of the genesis progress.
    GenesisMetadata,
    /// Coins by owner.
    OwnedCoins,
    /// Current status of each transaction.
    TransactionStatus,
    /// Transactions by owner, block and index.
    TransactionsByOwnerBlockIdx,
    /// Messages by owner.
    OwnedMessageIds,
    /// Statistics about the blockchain.
    Statistic,
    /// Block ids to heights.
    FuelBlockIdsToHeights,
    /// Information about contracts.
    ContractsInfo,
    /// Blocks imported from an earlier network.
    OldFuelBlocks,
    /// Consensus data of blocks imported from an earlier network.
    OldFuelBlockConsensus,
    /// Transactions imported from an earlier network.
    OldTransactions,
    /// Status of relayed transactions.
    RelayedTransactionStatus,
    /// Messages that have been spent.
    SpentMessages,
    /// Coin balances per account and asset.
    CoinBalances,
    /// Message balances per account.
    MessageBalances,
    /// Information about assets.
    AssetsInfo,
    /// Index of the coins that are available to spend.
    CoinsToSpend,
}

impl OffChainColumn {
    /// How many columns the database has.
    pub open spec fn spec_count() -> nat {
        18
    }

    /// The stable numeric id that addresses the column in the store.
    pub open spec fn spec_id(self) -> u32 {
        match self {
            OffChainColumn::Metadata => 0,
            OffChainColumn::GenesisMetadata => 1,
            OffChainColumn::OwnedCoins => 2,
            OffChainColumn::TransactionStatus => 3,
            OffChainColumn::TransactionsByOwnerBlockIdx => 4,
            OffChainColumn::OwnedMessageIds => 5,
            OffChainColumn::Statistic => 6,
            OffChainColumn::FuelBlockIdsToHeights => 7,
            OffChainColumn::ContractsInfo => 8,
            OffChainColumn::OldFuelBlocks => 9,
            OffChainColumn::OldFuelBlockConsensus => 10,
            OffChainColumn::OldTransactions => 11,
            OffChainColumn::RelayedTransactionStatus => 12,
            OffChainColumn::SpentMessages => 13,
            OffChainColumn::CoinBalances => 23,
            OffChainColumn::MessageBalances => 24,
            OffChainColumn::AssetsInfo => 25,
            OffChainColumn::CoinsToSpend => 26,
        }
    }

    /// The name by which the column is selected.
    pub open spec fn spec_name(self) -> Seq<char> {
        match self {
            OffChainColumn::Metadata => "metadata"@,
            OffChainColumn::GenesisMetadata => "genesis_metadata"@,
            OffChainColumn::OwnedCoins => "owned_coins"@,
            OffChainColumn::TransactionStatus => "transaction_status"@,
            OffChainColumn::TransactionsByOwnerBlockIdx => "transactions_by_owner_block_idx"@,
            OffChainColumn::OwnedMessageIds => "owned_message_ids"@,
            OffChainColumn::Statistic => "statistic"@,
            OffChainColumn::FuelBlockIdsToHeights => "fuel_block_ids_to_heights"@,
            OffChainColumn::ContractsInfo => "contracts_info"@,
            OffChainColumn::OldFuelBlocks => "old_fuel_blocks"@,
            OffChainColumn::OldFuelBlockConsensus => "old_fuel_block_consensus"@,
            OffChainColumn::OldTransactions => "old_transactions"@,
            OffChainColumn::RelayedTransactionStatus => "relayed_transaction_status"@,
            OffChainColumn::SpentMessages => "spent_messages"@,
            OffChainColumn::CoinBalances => "coin_balances"@,
            OffChainColumn::MessageBalances => "message_balances"@,
            OffChainColumn::AssetsInfo => "assets_info"@,
            OffChainColumn::CoinsToSpend => "coins_to_spend"@,
        }
    }

    /// The position of the column in the registry.
    pub open spec fn spec_index(self) -> nat {
        match self {
            OffChainColumn::Metadata => 0,
            OffChainColumn::GenesisMetadata => 1,
            OffChainColumn::OwnedCoins => 2,
            OffChainColumn::TransactionStatus => 3,
            OffChainColumn::TransactionsByOwnerBlockIdx => 4,
            OffChainColumn::OwnedMessageIds => 5,
            OffChainColumn::Statistic => 6,
            OffChainColumn::FuelBlockIdsToHeights => 7,
            OffChainColumn::ContractsInfo => 8,
            OffChainColumn::OldFuelBlocks => 9,
            OffChainColumn::OldFuelBlockConsensus => 10,
            OffChainColumn::OldTransactions => 11,
            OffChainColumn::RelayedTransactionStatus => 12,
            OffChainColumn::SpentMessages => 13,
            OffChainColumn::CoinBalances => 14,
            OffChainColumn::MessageBalances => 15,
            OffChainColumn::AssetsInfo => 16,
            OffChainColumn::CoinsToSpend => 17,
        }
    }

    /// The column at position `i` of the registry.
    pub open spec fn spec_at(i: int) -> Self {
        if i == 0 {
            OffChainColumn::Metadata
        } else if i == 1 {
            OffChainColumn::GenesisMetadata
        } else if i == 2 {
            OffChainColumn::OwnedCoins
        } else if i == 3 {
            OffChainColumn::TransactionStatus
        } else if i == 4 {
            OffChainColumn::TransactionsByOwnerBlockIdx
        } else if i == 5 {
            OffChainColumn::OwnedMessageIds
        } else if i == 6 {
            OffChainColumn::Statistic
        } else if i == 7 {
            OffChainColumn::FuelBlockIdsToHeights
        } else if i == 8 {
            OffChainColumn::ContractsInfo
        } else if i == 9 {
            OffChainColumn::OldFuelBlocks
        } else if i == 10 {
            OffChainColumn::OldFuelBlockConsensus
        } else if i == 11 {
            OffChainColumn::OldTransactions
        } else if i == 12 {
            OffChainColumn::RelayedTransactionStatus
        } else if i == 13 {
            OffChainColumn::SpentMessages
        } else if i == 14 {
            OffChainColumn::CoinBalances
        } else if i == 15 {
            OffChainColumn::MessageBalances
        } else if i == 16 {
            OffChainColumn::AssetsInfo
        } else {
            OffChainColumn::CoinsToSpend
        }
    }

    /// Each column stands in the registry at its own position.
    pub proof fn lemma_index(self)
        ensures
            self.spec_index() < Self::spec_count(),
            Self::spec_at(self.spec_index() as int) == self,
    {
    }

    /// Distinct columns have distinct names, also in canonical form, and distinct ids.
    pub proof fn lemma_distinct(a: Self, b: Self)
        ensures
            canonical_name(a.spec_name()) == canonical_name(b.spec_name()) ==> a == b,
            a.spec_id() == b.spec_id() ==> a == b,
    {
        reveal_strlit("metadata");
        assert(canonical_name("metadata"@).len() == 8);
        reveal_strlit("genesis_metadata");
        assert(canonical_name("genesis_metadata"@).len() == 16);
        assert(canonical_name("genesis_metadata"@)[0] == 'g');
        reveal_strlit("owned_coins");
        assert(canonical_name("owned_coins"@).len() == 11);
        assert(canonical_name("owned_coins"@)[0] == 'o');
        reveal_strlit("transaction_status");
        assert(canonical_name("transaction_status"@).len() == 18);
        reveal_strlit("transactions_by_owner_block_idx");
        assert(canonical_name("transactions_by_owner_block_idx"@).len() == 31);
        reveal_strlit("owned_message_ids");
        assert(canonical_name("owned_message_ids"@).len() == 17);
        reveal_strlit("statistic");
        assert(canonical_name("statistic"@).len() == 9);
        reveal_strlit("fuel_block_ids_to_heights");
        assert(canonical_name("fuel_block_ids_to_heights"@).len() == 25);
        reveal_strlit("contracts_info");
        assert(canonical_name("contracts_info"@).len() == 14);
        assert(canonical_name("contracts_info"@)[0] == 'c');
        assert(canonical_name("contracts_info"@)[2] == 'n');
        reveal_strlit("old_fuel_blocks");
        assert(canonical_name("old_fuel_blocks"@).len() == 15);
        reveal_strlit("old_fuel_block_consensus");
        assert(canonical_name("old_fuel_block_consensus"@).len() == 24);
        reveal_strlit("old_transactions");
        assert(canonical_name("old_transactions"@).len() == 16);
        assert(canonical_name("old_transactions"@)[0] == 'o');
        reveal_strlit("relayed_transaction_status");
        assert(canonical_name("relayed_transaction_status"@).len() == 26);
        reveal_strlit("spent_messages");
        assert(canonical_name("spent_messages"@).len() == 14);
        assert(canonical_name("spent_messages"@)[0] == 's');
        reveal_strlit("coin_balances");
        assert(canonical_name("coin_balances"@).len() == 13);
        reveal_strlit("message_balances");
        assert(canonical_name("message_balances"@).len() == 16);
        assert(canonical_name("message_balances"@)[0] == 'm');
        reveal_strlit("assets_info");
        assert(canonical_name("assets_info"@).len() == 11);
        assert(canonical_name("assets_info"@)[0] == 'a');
        reveal_strlit("coins_to_spend");
        assert(canonical_name("coins_to_spend"@).len() == 14);
        assert(canonical_name("coins_to_spend"@)[0] == 'c');
        assert(canonical_name("coins_to_spend"@)[2] == 'i');
    }

    /// The stable numeric id of the column.
    pub fn id(&self) -> (r: u32)
        ensures
            r == self.spec_id(),
    {
        match self {
            OffChainColumn::Metadata => 0,
            OffChainColumn::GenesisMetadata => 1,
            OffChainColumn::OwnedCoins => 2,
            OffChainColumn::TransactionStatus => 3,
            OffChainColumn::TransactionsByOwnerBlockIdx => 4,
            OffChainColumn::OwnedMessageIds => 5,
            OffChainColumn::Statistic => 6,
            OffChainColumn::FuelBlockIdsToHeights => 7,
            OffChainColumn::ContractsInfo => 8,
            OffChainColumn::OldFuelBlocks => 9,
            OffChainColumn::OldFuelBlockConsensus => 10,
            OffChainColumn::OldTransactions => 11,
            OffChainColumn::RelayedTransactionStatus => 12,
            OffChainColumn::SpentMessages => 13,
            OffChainColumn::CoinBalances => 23,
            OffChainColumn::MessageBalances => 24,
            OffChainColumn::AssetsInfo => 25,
            OffChainColumn::CoinsToSpend => 26,
        }
    }

    /// The name by which the column is selected.
    pub fn name(&self) -> (r: &'static str)
        ensures
            r@ == self.spec_name(),
    {
        match self {
            OffChainColumn::Metadata => "metadata",
            OffChainColumn::GenesisMetadata => "genesis_metadata",
            OffChainColumn::OwnedCoins => "owned_coins",
            OffChainColumn::TransactionStatus => "transaction_status",
            OffChainColumn::TransactionsByOwnerBlockIdx => "transactions_by_owner_block_idx",
            OffChainColumn::OwnedMessageIds => "owned_message_ids",
            OffChainColumn::Statistic => "statistic",
            OffChainColumn::FuelBlockIdsToHeights => "fuel_block_ids_to_heights",
            OffChainColumn::ContractsInfo => "contracts_info",
            OffChainColumn::OldFuelBlocks => "old_fuel_blocks",
            OffChainColumn::OldFuelBlockConsensus => "old_fuel_block_consensus",
            OffChainColumn::OldTransactions => "old_transactions",
            OffChainColumn::RelayedTransactionStatus => "relayed_transaction_status",
            OffChainColumn::SpentMessages => "spent_messages",
            OffChainColumn::CoinBalances => "coin_balances",
            OffChainColumn::MessageBalances => "message_balances",
            OffChainColumn::AssetsInfo => "assets_info",
            OffChainColumn::CoinsToSpend => "coins_to_spend",
        }
    }

    /// The column at position `i` of the registry.
    pub fn at(i: usize) -> (r: Self)
        requires
            i < Self::spec_count(),
        ensures
            r == Self::spec_at(i as int),
    {
        match i {
            0 => OffChainColumn::Metadata,
            1 => OffChainColumn::GenesisMetadata,
            2 => OffChainColumn::OwnedCoins,
            3 => OffChainColumn::TransactionStatus,
            4 => OffChainColumn::TransactionsByOwnerBlockIdx,
            5 => OffChainColumn::OwnedMessageIds,
            6 => OffChainColumn::Statistic,
            7 => OffChainColumn::FuelBlockIdsToHeights,
            8 => OffChainColumn::ContractsInfo,
            9 => OffChainColumn::OldFuelBlocks,
            10 => OffChainColumn::OldFuelBlockConsensus,
            11 => OffChainColumn::OldTransactions,
            12 => OffChainColumn::RelayedTransactionStatus,
            13 => OffChainColumn::SpentMessages,
            14 => OffChainColumn::CoinBalances,
            15 => OffChainColumn::MessageBalances,
            16 => OffChainColumn::AssetsInfo,
            _ => OffChainColumn::CoinsToSpend,
        }
    }
}

} // verus!
