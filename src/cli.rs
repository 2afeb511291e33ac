//! Command-line arguments and their validation into a fully resolved command.
use vstd::prelude::*;

use crate::columns::{lemma_resolve_legal_name, spec_parse_column, Column};
use crate::databases::{Database, DatabaseConfig};
use crate::error::{InspectorError, InspectorErrorView};
use crate::hex::{decode_hex, hex_string_to_bytes, is_well_formed_hex, malformed_hex_position};

verus! {

/// CLI args
#[derive(Debug, Clone)]
pub struct FuelCoreInspectorCliArgs {
    /// Command to execute
    pub command: Command,
}

/// Command configuration
#[derive(Debug, Clone)]
pub struct CmdConfig {
    /// Database name
    pub database: Database,
    /// Database config
    pub database_config: DatabaseConfig,
    /// Column name
    pub column: String,
    /// Key to inspect
    pub key: String,
    /// Value to write
    pub value: Option<String>,
}

/// The command to run, with its configuration.
#[derive(Debug, Clone)]
pub enum Command {
    /// Inspect database k-v pairs
    Inspect(CmdConfig),
    /// Mutate database k-v pairs
    Mutate(CmdConfig),
}

/// command without config
#[derive(Debug, Clone, Copy, PartialEq, Eq, Structural)]
pub enum CommandWithoutConfig {
    /// Inspect database k-v pairs
    Inspect,
    /// Mutate database k-v pairs
    Mutate,
}

impl Command {
    /// The kind of the command.
    pub open spec fn spec_kind(self) -> CommandWithoutConfig {
        match self {
            Command::Inspect(_) => CommandWithoutConfig::Inspect,
            Command::Mutate(_) => CommandWithoutConfig::Mutate,
        }
    }

    /// The configuration of the command.
    pub open spec fn spec_config(self) -> CmdConfig {
        match self {
            Command::Inspect(config) => config,
            Command::Mutate(config) => config,
        }
    }

    fn into_cmd_config(self) -> (r: CmdConfig)
        ensures
            r == self.spec_config(),
    {
        match self {
            Command::Inspect(config) => config,
            Command::Mutate(config) => config,
        }
    }
}

/// The mathematical value of a validated command.
pub struct ValidatedCommandView {
    pub database: Database,
    pub path: Seq<char>,
    pub column: Column,
    pub key: Seq<u8>,
    pub value: Seq<u8>,
    pub cmd: CommandWithoutConfig,
}

/// The outcome of validating a command of kind `cmd` with configuration `cfg`, where
/// `path_exists` tells whether the store path exists. The checks run in order and the
/// first that fails decides the error.
pub open spec fn spec_validate(cmd: CommandWithoutConfig, cfg: CmdConfig, path_exists: bool) -> Result<
    ValidatedCommandView,
    InspectorErrorView,
> {
    if cmd is Mutate && cfg.value is None {
        Err(InspectorErrorView::MissingValue)
    } else if !is_well_formed_hex(cfg.key@) {
        Err(
            InspectorErrorView::MalformedHex {
                position: malformed_hex_position(cfg.key@) as usize,
            },
        )
    } else if cfg.value matches Some(v) && !is_well_formed_hex(v@) {
        Err(
            InspectorErrorView::MalformedHex {
                position: malformed_hex_position(cfg.value->Some_0@) as usize,
            },
        )
    } else {
        match spec_parse_column(cfg.database, cfg.column@) {
            Err(e) => Err(e),
            Ok(column) => if !path_exists {
                Err(InspectorErrorView::PathNotFound { path: cfg.database_config.path@ })
            } else {
                Ok(
                    ValidatedCommandView {
                        database: cfg.database,
                        path: cfg.database_config.path@,
                        column,
                        key: decode_hex(cfg.key@),
                        value: match cfg.value {
                            Some(v) => decode_hex(v@),
                            None => Seq::empty(),
                        },
                        cmd,
                    },
                )
            },
        }
    }
}

/// Validated FuelCoreInspectorCliArgs
#[derive(Debug, Clone)]
pub struct ValidatedFuelCoreInspectorCliArgs {
    /// Database name
    database: Database,
    /// Database config
    database_config: DatabaseConfig,
    /// column
    column: Column,
    /// key
    key: Vec<u8>,
    /// value
    value: Vec<u8>,
    /// command
    cmd: CommandWithoutConfig,
}

impl View for ValidatedFuelCoreInspectorCliArgs {
    type V = ValidatedCommandView;

    closed spec fn view(&self) -> ValidatedCommandView {
        ValidatedCommandView {
            database: self.database,
            path: self.database_config.path@,
            column: self.column,
            key: self.key@,
            value: self.value@,
            cmd: self.cmd,
        }
    }
}

impl ValidatedFuelCoreInspectorCliArgs {
    /// column
    pub fn column(&self) -> (r: &Column)
        ensures
            *r == self@.column,
    {
        &self.column
    }

    /// key
    pub fn key(&self) -> (r: &[u8])
        ensures
            r@ == self@.key,
    {
        self.key.as_slice()
    }

    /// value
    pub fn value(&self) -> (r: &[u8])
        ensures
            r@ == self@.value,
    {
        self.value.as_slice()
    }

    /// database
    pub fn database(&self) -> (r: &Database)
        ensures
            *r == self@.database,
    {
        &self.database
    }

    /// database config
    pub fn database_config(&self) -> (r: &DatabaseConfig)
        ensures
            r.path@ == self@.path,
    {
        &self.database_config
    }

    /// command
    pub fn cmd(&self) -> (r: &CommandWithoutConfig)
        ensures
            *r == self@.cmd,
    {
        &self.cmd
    }
}

/// Relies on std::path::Path::exists: whether something exists at the path. The answer
/// depends on the file system, so nothing is stated of it.
#[verifier::external_body]
fn path_exists(path: &str) -> bool {
    std::path::Path::new(path).exists()
}

impl FuelCoreInspectorCliArgs {
    /// validate and parse the column into an enum variant
    pub fn validate(self) -> (r: Result<ValidatedFuelCoreInspectorCliArgs, InspectorError>)
        ensures
            ({
                let cmd = self.command.spec_kind();
                let cfg = self.command.spec_config();
                match r {
                    Ok(v) => spec_validate(cmd, cfg, true) == Ok::<
                        ValidatedCommandView,
                        InspectorErrorView,
                    >(v@),
                    Err(e) => spec_validate(cmd, cfg, true) == Err::<
                        ValidatedCommandView,
                        InspectorErrorView,
                    >(e@) || spec_validate(cmd, cfg, false) == Err::<
                        ValidatedCommandView,
                        InspectorErrorView,
                    >(e@),
                }
            }),
    {
        let exists = match &self.command {
            Command::Inspect(config) => path_exists(config.database_config.path.as_str()),
            Command::Mutate(config) => path_exists(config.database_config.path.as_str()),
        };
        self.validate_with_path_status(exists)
    }

    /// Validates the arguments, given whether the store path exists: a mutate command needs
    /// a value, the key and value must be well-formed hex, the column must be one of the
    /// database's, and the path must exist. The first check that fails decides the error.
    pub fn validate_with_path_status(self, path_exists: bool) -> (r: Result<
        ValidatedFuelCoreInspectorCliArgs,
        InspectorError,
    >)
        ensures
            ({
                let outcome = spec_validate(
                    self.command.spec_kind(),
                    self.command.spec_config(),
                    path_exists,
                );
                match r {
                    Ok(v) => outcome == Ok::<ValidatedCommandView, InspectorErrorView>(v@),
                    Err(e) => outcome == Err::<ValidatedCommandView, InspectorErrorView>(e@),
                }
            }),
    {
        let cmd = match self.command {
            Command::Inspect(_) => CommandWithoutConfig::Inspect,
            Command::Mutate(_) => CommandWithoutConfig::Mutate,
        };
        let CmdConfig { database, column, key, database_config, value } =
            self.command.into_cmd_config();

        if cmd == CommandWithoutConfig::Mutate && value.is_none() {
            return Err(InspectorError::MissingValue);
        }

        let key = hex_string_to_bytes(key.as_str())?;
        let value = match &value {
            Some(v) => hex_string_to_bytes(v.as_str())?,
            None => Vec::new(),
        };

        let column = database.parse_column_for_database(column.as_str())?;

        if !path_exists {
            return Err(InspectorError::PathNotFound { path: database_config.path });
        }

        Ok(ValidatedFuelCoreInspectorCliArgs { database, column, key, database_config, cmd, value })
    }
}

/// A mutate command without a value fails with `MissingValue`; one with a value, a
/// well-formed key and value, a column of its database (in any ASCII case) and an existing
/// store path validates into a mutate command.
pub proof fn lemma_mutate_validation(cfg: CmdConfig, path_exists: bool)
    ensures
        cfg.value is None ==> spec_validate(CommandWithoutConfig::Mutate, cfg, path_exists)
            == Err::<ValidatedCommandView, InspectorErrorView>(InspectorErrorView::MissingValue),
        (cfg.value matches Some(v) && is_well_formed_hex(v@)) && is_well_formed_hex(cfg.key@)
            && cfg.database.spec_knows_name(cfg.column@) && path_exists
            ==> (spec_validate(CommandWithoutConfig::Mutate, cfg, path_exists) matches Ok(r)
            && r.cmd == CommandWithoutConfig::Mutate),
{
    if cfg.database.spec_knows_name(cfg.column@) {
        lemma_resolve_legal_name(cfg.database, cfg.column@);
    }
}

} // verus!
