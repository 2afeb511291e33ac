use std::collections::HashMap;

use fuel_core_inspector::cli::{CmdConfig, Command, CommandWithoutConfig, FuelCoreInspectorCliArgs};
use fuel_core_inspector::columns::{
    Column, CompressionColumn, GasPriceColumn, OffChainColumn, OnchainColumn, RelayerColumn,
};
use fuel_core_inspector::databases::{
    Database, DatabaseConfig, DatabaseHandle, ReadRequest, WriteRequest,
};
use fuel_core_inspector::error::InspectorError;
use fuel_core_inspector::printer::PrintHexExt;

/// A stand-in for one region of the store, keyed by column id and key.
#[derive(Default)]
struct Region {
    pairs: HashMap<(u32, Vec<u8>), Vec<u8>>,
}

impl Region {
    fn commit(&mut self, request: &WriteRequest) {
        self.pairs.insert((request.column.id(), request.key.clone()), request.value.clone());
    }

    fn get(&self, request: &ReadRequest) -> Option<Vec<u8>> {
        self.pairs.get(&(request.column.id(), request.key.clone())).cloned()
    }
}

fn handle(variant: Database) -> DatabaseHandle {
    DatabaseHandle::new(variant, DatabaseConfig { path: "/var/lib/store".to_string() })
}

#[test]
fn handle_keeps_variant_and_config() {
    let h = handle(Database::OffChain);
    assert_eq!(h.variant(), Database::OffChain);
    assert_eq!(h.config().path, "/var/lib/store");
}

#[test]
fn write_request_addresses_the_column() {
    let h = handle(Database::OnChain);
    let column = Column::Onchain(OnchainColumn::Coins);
    let request = h.perform_write(&column, &[1, 2], &[3]).unwrap();
    assert_eq!(request.column, column);
    assert_eq!(request.key, vec![1, 2]);
    assert_eq!(request.value, vec![3]);
}

#[test]
fn read_request_addresses_the_column() {
    let h = handle(Database::Compression);
    let column = Column::Compression(CompressionColumn::ScriptCode);
    let request = h.perform_read(&column, &[7, 7]).unwrap();
    assert_eq!(request.column, column);
    assert_eq!(request.key, vec![7, 7]);
}

#[test]
fn write_then_read_returns_the_value() {
    for (variant, column) in [
        (Database::OnChain, Column::Onchain(OnchainColumn::Metadata)),
        (Database::OffChain, Column::Offchain(OffChainColumn::CoinsToSpend)),
        (Database::GasPrice, Column::GasPrice(GasPriceColumn::Metadata)),
        (Database::Relayer, Column::Relayer(RelayerColumn::History)),
    ] {
        let h = handle(variant);
        let mut region = Region::default();
        let write = h.perform_write(&column, b"key", b"value").unwrap();
        region.commit(&write);
        let read = h.perform_read(&column, b"key").unwrap();
        assert_eq!(region.get(&read), Some(b"value".to_vec()));
        let unwritten = h.perform_read(&column, b"other").unwrap();
        assert_eq!(region.get(&unwritten), None);
    }
}

#[test]
fn compression_region_is_read_only() {
    let h = handle(Database::Compression);
    let column = Column::Compression(CompressionColumn::CompressedBlocks);
    let mut region = Region::default();
    let before = h.perform_read(&column, &[1]).unwrap();
    assert_eq!(region.get(&before), None);
    match h.perform_write(&column, &[1], &[2]) {
        Err(InspectorError::UnsupportedOperation { database }) => {
            assert_eq!(database, Database::Compression)
        }
        other => panic!("unexpected {:?}", other),
    }
    // nothing was handed to the region, so a later read sees what it saw before
    if let Ok(request) = h.perform_write(&column, &[1], &[2]) {
        region.commit(&request);
    }
    let after = h.perform_read(&column, &[1]).unwrap();
    assert_eq!(region.get(&after), None);
    // even a column of another database is refused as an unsupported write first
    let foreign = Column::Onchain(OnchainColumn::Coins);
    assert!(matches!(
        h.perform_write(&foreign, &[1], &[2]),
        Err(InspectorError::UnsupportedOperation { .. })
    ));
}

#[test]
fn column_of_another_database_is_refused() {
    let column = Database::OnChain.parse_column_for_database("metadata").unwrap();
    for other in [Database::OffChain, Database::GasPrice, Database::Relayer, Database::Compression]
    {
        let h = handle(other);
        match h.perform_read(&column, &[1]) {
            Err(InspectorError::ColumnMismatch { column_database, handle_database }) => {
                assert_eq!(column_database, Database::OnChain);
                assert_eq!(handle_database, other);
            }
            other => panic!("unexpected {:?}", other),
        }
        assert!(h.perform_write(&column, &[1], &[2]).is_err());
    }
    let h = handle(Database::OffChain);
    assert!(matches!(
        h.perform_write(&column, &[1], &[2]),
        Err(InspectorError::ColumnMismatch { .. })
    ));
}

fn args(command: fn(CmdConfig) -> Command, value: Option<&str>) -> FuelCoreInspectorCliArgs {
    FuelCoreInspectorCliArgs {
        command: command(CmdConfig {
            database: Database::OnChain,
            database_config: DatabaseConfig { path: "/var/lib/store".to_string() },
            column: "metadata".to_string(),
            key: "0x0102".to_string(),
            value: value.map(|v| v.to_string()),
        }),
    }
}

#[test]
fn mutate_then_inspect_metadata_end_to_end() {
    let mut region = Region::default();

    let mutate = args(Command::Mutate, Some("0xdeadbeef")).validate_with_path_status(true).unwrap();
    assert_eq!(*mutate.cmd(), CommandWithoutConfig::Mutate);
    let h = DatabaseHandle::from_args(&mutate);
    assert_eq!(h.variant(), Database::OnChain);
    let write = h.perform_write(mutate.column(), mutate.key(), mutate.value()).unwrap();
    assert_eq!(write.column, Column::Onchain(OnchainColumn::Metadata));
    assert_eq!(write.key, vec![0x01, 0x02]);
    assert_eq!(write.value, vec![0xde, 0xad, 0xbe, 0xef]);
    region.commit(&write);

    let inspect = args(Command::Inspect, None).validate_with_path_status(true).unwrap();
    let h = DatabaseHandle::from_args(&inspect);
    let read = h.perform_read(inspect.column(), inspect.key()).unwrap();
    let value = region.get(&read);
    assert_eq!(value, Some(vec![0xde, 0xad, 0xbe, 0xef]));
    let expected = format!("Length: 4 (0x4) bytes\n0000:   de ad  be ef{}....", " ".repeat(59));
    assert_eq!(value.hex_report(), expected);
}
