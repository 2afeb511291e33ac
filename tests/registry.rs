use fuel_core_inspector::columns::{
    Column, CompressionColumn, GasPriceColumn, OffChainColumn, OnchainColumn, RelayerColumn,
};
use fuel_core_inspector::databases::Database;
use fuel_core_inspector::error::InspectorError;

const ALL_DATABASES: [Database; 5] = [
    Database::OnChain,
    Database::OffChain,
    Database::Compression,
    Database::GasPrice,
    Database::Relayer,
];

#[test]
fn every_registered_name_resolves_within_its_database() {
    for db in ALL_DATABASES {
        let names = db.column_names();
        assert_eq!(names.len(), db.column_count());
        for (i, name) in names.iter().enumerate() {
            let column = db.parse_column_for_database(name).expect("registered name");
            assert_eq!(column.database(), db);
            assert_eq!(column.name(), name.as_str());
            assert_eq!(column, db.column_at(i));
        }
    }
}

#[test]
fn unknown_name_lists_every_column_of_the_database() {
    for db in ALL_DATABASES {
        match db.parse_column_for_database("no_such_column") {
            Err(InspectorError::UnknownColumn { name, database, known_names }) => {
                assert_eq!(name, "no_such_column");
                assert_eq!(database, db);
                assert_eq!(known_names, db.column_names());
            }
            other => panic!("unexpected {:?}", other),
        }
    }
}

#[test]
fn names_are_matched_ignoring_ascii_case() {
    assert_eq!(
        Database::OnChain.parse_column_for_database("Metadata").unwrap(),
        Column::Onchain(OnchainColumn::Metadata)
    );
    assert_eq!(
        Database::OnChain.parse_column_for_database("METADATA").unwrap(),
        Column::Onchain(OnchainColumn::Metadata)
    );
    assert_eq!(
        Database::OffChain.parse_column_for_database("Coins_To_Spend").unwrap(),
        Column::Offchain(OffChainColumn::CoinsToSpend)
    );
    assert_eq!(
        Database::GasPrice.parse_column_for_database("LATEST_RECORDED_HEIGHT").unwrap(),
        Column::GasPrice(GasPriceColumn::LatestRecordedHeight)
    );
}

#[test]
fn unknown_name_is_reported_as_given() {
    match Database::Relayer.parse_column_for_database("NO_SUCH") {
        Err(InspectorError::UnknownColumn { name, .. }) => assert_eq!(name, "NO_SUCH"),
        other => panic!("unexpected {:?}", other),
    }
}

#[test]
fn names_must_otherwise_match_exactly() {
    assert!(Database::OnChain.parse_column_for_database("metadata ").is_err());
    assert!(Database::OnChain.parse_column_for_database("meta-data").is_err());
    assert!(Database::OnChain.parse_column_for_database("").is_err());
    assert!(Database::Relayer.parse_column_for_database("coins").is_err());
}

#[test]
fn registry_sizes() {
    assert_eq!(Database::OnChain.column_count(), 22);
    assert_eq!(Database::OffChain.column_count(), 18);
    assert_eq!(Database::Compression.column_count(), 9);
    assert_eq!(Database::GasPrice.column_count(), 4);
    assert_eq!(Database::Relayer.column_count(), 2);
}

#[test]
fn column_names_are_snake_case() {
    assert_eq!(
        Database::OnChain.parse_column_for_database("contracts_state_merkle_metadata").unwrap(),
        Column::Onchain(OnchainColumn::ContractsStateMerkleMetadata)
    );
    assert_eq!(
        Database::OffChain.parse_column_for_database("transactions_by_owner_block_idx").unwrap(),
        Column::Offchain(OffChainColumn::TransactionsByOwnerBlockIdx)
    );
    assert_eq!(
        Database::Compression.parse_column_for_database("evictor_cache").unwrap(),
        Column::Compression(CompressionColumn::EvictorCache)
    );
    assert_eq!(
        Database::GasPrice.parse_column_for_database("latest_recorded_height").unwrap(),
        Column::GasPrice(GasPriceColumn::LatestRecordedHeight)
    );
    assert_eq!(
        Database::Relayer.parse_column_for_database("history").unwrap(),
        Column::Relayer(RelayerColumn::History)
    );
}

#[test]
fn same_name_resolves_per_database() {
    assert_eq!(
        Database::OnChain.parse_column_for_database("metadata").unwrap(),
        Column::Onchain(OnchainColumn::Metadata)
    );
    assert_eq!(
        Database::OffChain.parse_column_for_database("metadata").unwrap(),
        Column::Offchain(OffChainColumn::Metadata)
    );
    assert_eq!(
        Database::GasPrice.parse_column_for_database("metadata").unwrap(),
        Column::GasPrice(GasPriceColumn::Metadata)
    );
    assert_eq!(
        Database::Relayer.parse_column_for_database("metadata").unwrap(),
        Column::Relayer(RelayerColumn::Metadata)
    );
}

#[test]
fn stable_column_ids() {
    assert_eq!(OnchainColumn::Metadata.id(), 0);
    assert_eq!(OnchainColumn::Blobs.id(), 20);
    assert_eq!(OnchainColumn::GenesisMetadata.id(), 21);
    assert_eq!(OffChainColumn::SpentMessages.id(), 13);
    assert_eq!(OffChainColumn::CoinBalances.id(), 23);
    assert_eq!(OffChainColumn::CoinsToSpend.id(), 26);
    assert_eq!(CompressionColumn::Timestamps.id(), 8);
    assert_eq!(GasPriceColumn::UnrecordedBlocks.id(), 2);
    assert_eq!(RelayerColumn::History.id(), 1);
    assert_eq!(Column::Offchain(OffChainColumn::AssetsInfo).id(), 25);
}

#[test]
fn column_accessors_pick_their_variant() {
    let column = Column::GasPrice(GasPriceColumn::State);
    assert_eq!(column.as_gas_price(), Some(&GasPriceColumn::State));
    assert_eq!(column.as_onchain(), None);
    assert_eq!(column.as_offchain(), None);
    assert_eq!(column.as_compression(), None);
    assert_eq!(column.as_relayer(), None);

    let column = Column::Onchain(OnchainColumn::Coins);
    assert_eq!(column.as_onchain(), Some(&OnchainColumn::Coins));
    assert_eq!(column.as_gas_price(), None);

    let column = Column::Offchain(OffChainColumn::Statistic);
    assert_eq!(column.as_offchain(), Some(&OffChainColumn::Statistic));

    let column = Column::Compression(CompressionColumn::Address);
    assert_eq!(column.as_compression(), Some(&CompressionColumn::Address));

    let column = Column::Relayer(RelayerColumn::Metadata);
    assert_eq!(column.as_relayer(), Some(&RelayerColumn::Metadata));
}

#[test]
fn columns_convert_into_the_umbrella_type() {
    assert_eq!(Column::from(OnchainColumn::Coins), Column::Onchain(OnchainColumn::Coins));
    assert_eq!(Column::from(OffChainColumn::OwnedCoins), Column::Offchain(OffChainColumn::OwnedCoins));
    assert_eq!(
        Column::from(CompressionColumn::AssetId),
        Column::Compression(CompressionColumn::AssetId)
    );
    assert_eq!(Column::from(GasPriceColumn::State), Column::GasPrice(GasPriceColumn::State));
    assert_eq!(Column::from(RelayerColumn::History), Column::Relayer(RelayerColumn::History));
}
