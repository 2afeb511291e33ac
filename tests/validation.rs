use fuel_core_inspector::cli::{CmdConfig, Command, CommandWithoutConfig, FuelCoreInspectorCliArgs};
use fuel_core_inspector::columns::{Column, GasPriceColumn, OnchainColumn};
use fuel_core_inspector::databases::{Database, DatabaseConfig};
use fuel_core_inspector::error::InspectorError;

fn config(database: Database, column: &str, key: &str, value: Option<&str>) -> CmdConfig {
    CmdConfig {
        database,
        database_config: DatabaseConfig { path: "/var/lib/store".to_string() },
        column: column.to_string(),
        key: key.to_string(),
        value: value.map(|v| v.to_string()),
    }
}

fn mutate(cfg: CmdConfig) -> FuelCoreInspectorCliArgs {
    FuelCoreInspectorCliArgs { command: Command::Mutate(cfg) }
}

fn inspect(cfg: CmdConfig) -> FuelCoreInspectorCliArgs {
    FuelCoreInspectorCliArgs { command: Command::Inspect(cfg) }
}

#[test]
fn mutate_without_value_is_missing_value() {
    let args = mutate(config(Database::OnChain, "metadata", "0x01", None));
    assert!(matches!(args.validate_with_path_status(true), Err(InspectorError::MissingValue)));
    // the missing value is reported before anything else is looked at
    let args = mutate(config(Database::OnChain, "nope", "zz", None));
    assert!(matches!(args.validate_with_path_status(false), Err(InspectorError::MissingValue)));
}

#[test]
fn mutate_with_value_validates_as_mutate() {
    let args = mutate(config(Database::GasPrice, "state", "0x0a0b", Some("ff")));
    let validated = args.validate_with_path_status(true).unwrap();
    assert_eq!(*validated.cmd(), CommandWithoutConfig::Mutate);
    assert_eq!(*validated.database(), Database::GasPrice);
    assert_eq!(*validated.column(), Column::GasPrice(GasPriceColumn::State));
    assert_eq!(validated.key(), &[0x0a, 0x0b]);
    assert_eq!(validated.value(), &[0xff]);
    assert_eq!(validated.database_config().path, "/var/lib/store");
}

#[test]
fn inspect_without_value_has_empty_value() {
    let args = inspect(config(Database::OnChain, "coins", "0102", None));
    let validated = args.validate_with_path_status(true).unwrap();
    assert_eq!(*validated.cmd(), CommandWithoutConfig::Inspect);
    assert_eq!(*validated.column(), Column::Onchain(OnchainColumn::Coins));
    assert_eq!(validated.key(), &[1, 2]);
    assert!(validated.value().is_empty());
}

#[test]
fn malformed_key_is_reported() {
    let args = inspect(config(Database::OnChain, "coins", "0x012", None));
    assert!(matches!(
        args.validate_with_path_status(true),
        Err(InspectorError::MalformedHex { position: 5 })
    ));
}

#[test]
fn malformed_value_is_reported() {
    let args = mutate(config(Database::OnChain, "coins", "0x01", Some("0xqq")));
    assert!(matches!(
        args.validate_with_path_status(true),
        Err(InspectorError::MalformedHex { position: 2 })
    ));
}

#[test]
fn unknown_column_is_reported_with_alternatives() {
    let args = inspect(config(Database::Relayer, "coins", "01", None));
    match args.validate_with_path_status(true) {
        Err(InspectorError::UnknownColumn { name, database, known_names }) => {
            assert_eq!(name, "coins");
            assert_eq!(database, Database::Relayer);
            assert_eq!(known_names, vec!["metadata".to_string(), "history".to_string()]);
        }
        other => panic!("unexpected {:?}", other),
    }
}

#[test]
fn missing_store_path_is_reported_last() {
    let args = inspect(config(Database::OnChain, "coins", "01", None));
    match args.validate_with_path_status(false) {
        Err(InspectorError::PathNotFound { path }) => assert_eq!(path, "/var/lib/store"),
        other => panic!("unexpected {:?}", other),
    }
    let args = inspect(config(Database::OnChain, "nope", "01", None));
    assert!(matches!(
        args.validate_with_path_status(false),
        Err(InspectorError::UnknownColumn { .. })
    ));
}

#[test]
fn validate_checks_the_file_system() {
    let args = inspect(CmdConfig {
        database: Database::OnChain,
        database_config: DatabaseConfig { path: "/no/such/store/anywhere".to_string() },
        column: "coins".to_string(),
        key: "01".to_string(),
        value: None,
    });
    assert!(matches!(args.validate(), Err(InspectorError::PathNotFound { .. })));

    let args = inspect(CmdConfig {
        database: Database::OnChain,
        database_config: DatabaseConfig { path: "/".to_string() },
        column: "coins".to_string(),
        key: "01".to_string(),
        value: None,
    });
    assert!(args.validate().is_ok());
}

#[test]
fn column_name_is_case_normalized() {
    let args = mutate(config(Database::OnChain, "METADATA", "0x0102", Some("0xdeadbeef")));
    let validated = args.validate_with_path_status(true).unwrap();
    assert_eq!(*validated.column(), Column::Onchain(OnchainColumn::Metadata));
    assert_eq!(*validated.cmd(), CommandWithoutConfig::Mutate);
}
