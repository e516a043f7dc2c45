//! Merge-and-validate resolution of the blockchain configuration.
//!
//! Five required values may each come from a direct raw string or from one of
//! the two deployment-descriptor files. A direct value always wins; a file,
//! once referenced, is always consulted (an unreadable or malformed file is a
//! terminal error even where every value it could supply is already set); and
//! a field that is still unset after the merge fails resolution with an error
//! naming it, in a fixed check order.

use crate::deployment::parse_dapp_deployment;
use crate::deployment::parse_rollups_deployment;
use crate::deployment::spec_parse_dapp_deployment;
use crate::deployment::spec_parse_rollups_deployment;
use crate::deployment::ContractV;
use crate::values::spec_opt_address;
use crate::values::spec_opt_hash;
use crate::values::spec_parse_address;
use crate::values::spec_parse_hash;
use crate::values::Address;
use vstd::prelude::*;

verus! {

/// The raw inputs of resolution: five optional raw string values and two
/// optional file paths, each independently optional, gathered externally by
/// command-line/environment binding.
#[derive(Debug, Clone)]
pub struct BlockchainCLIConfig {
    pub dapp_address: Option<String>,
    pub dapp_deploy_block_hash: Option<String>,
    pub history_address: Option<String>,
    pub authority_address: Option<String>,
    pub input_box_address: Option<String>,
    pub dapp_deployment_file: Option<String>,
    pub rollups_deployment_file: Option<String>,
}

/// Spec-level counterpart of [`BlockchainCLIConfig`].
pub ghost struct BlockchainCLIConfigV {
    pub dapp_address: Option<Seq<char>>,
    pub dapp_deploy_block_hash: Option<Seq<char>>,
    pub history_address: Option<Seq<char>>,
    pub authority_address: Option<Seq<char>>,
    pub input_box_address: Option<Seq<char>>,
    pub dapp_deployment_file: Option<Seq<char>>,
    pub rollups_deployment_file: Option<Seq<char>>,
}

impl View for BlockchainCLIConfig {
    type V = BlockchainCLIConfigV;

    open spec fn view(&self) -> BlockchainCLIConfigV {
        BlockchainCLIConfigV {
            dapp_address: opt_str_view(self.dapp_address),
            dapp_deploy_block_hash: opt_str_view(self.dapp_deploy_block_hash),
            history_address: opt_str_view(self.history_address),
            authority_address: opt_str_view(self.authority_address),
            input_box_address: opt_str_view(self.input_box_address),
            dapp_deployment_file: opt_str_view(self.dapp_deployment_file),
            rollups_deployment_file: opt_str_view(self.rollups_deployment_file),
        }
    }
}

/// View of an optional raw string.
pub open spec fn opt_str_view(o: Option<String>) -> Option<Seq<char>> {
    match o {
        Some(s) => Some(s@),
        None => None,
    }
}

/// Outcome of reading a referenced deployment file, handed in by the caller
/// that performs the file I/O.
#[derive(Debug, Clone)]
pub enum FileRead {
    /// No file path was supplied.
    Absent,
    /// A path was supplied but the file could not be opened or read.
    Unreadable,
    /// The full text of the file.
    Contents(String),
}

/// Spec-level counterpart of [`FileRead`].
pub ghost enum FileReadV {
    Absent,
    Unreadable,
    Contents(Seq<char>),
}

impl View for FileRead {
    type V = FileReadV;

    open spec fn view(&self) -> FileReadV {
        match self {
            FileRead::Absent => FileReadV::Absent,
            FileRead::Unreadable => FileReadV::Unreadable,
            FileRead::Contents(s) => FileReadV::Contents(s@),
        }
    }
}

/// A terminal resolution failure.
#[derive(Debug, Clone, PartialEq, Eq)]
pub enum BlockchainConfigError {
    /// A raw direct value failed to parse as its typed value.
    JsonDeserializeError,
    /// A referenced file's contents failed to parse as its descriptor schema;
    /// carries the file path.
    JsonReadError { path: String },
    /// A referenced file path could not be opened or read; carries the file
    /// path.
    ReadFileError { path: String },
    /// A required field was still unset after the full merge; carries the
    /// field name.
    MissingConfig { name: String },
}

/// Spec-level counterpart of [`BlockchainConfigError`].
pub ghost enum ConfigErrorV {
    JsonDeserializeError,
    JsonReadError { path: Seq<char> },
    ReadFileError { path: Seq<char> },
    MissingConfig { name: Seq<char> },
}

impl View for BlockchainConfigError {
    type V = ConfigErrorV;

    open spec fn view(&self) -> ConfigErrorV {
        match self {
            BlockchainConfigError::JsonDeserializeError => ConfigErrorV::JsonDeserializeError,
            BlockchainConfigError::JsonReadError { path } => ConfigErrorV::JsonReadError {
                path: path@,
            },
            BlockchainConfigError::ReadFileError { path } => ConfigErrorV::ReadFileError {
                path: path@,
            },
            BlockchainConfigError::MissingConfig { name } => ConfigErrorV::MissingConfig {
                name: name@,
            },
        }
    }
}

/// The fully resolved configuration: all five fields are present and typed.
#[derive(Debug, Clone)]
pub struct BlockchainConfig {
    pub dapp_address: Address,
    pub dapp_deploy_block_hash: crate::values::Hash,
    pub history_address: Address,
    pub authority_address: Address,
    pub input_box_address: Address,
}

/// Spec-level counterpart of [`BlockchainConfig`]: the five decoded values.
pub ghost struct BlockchainConfigV {
    pub dapp_address: Seq<u8>,
    pub dapp_deploy_block_hash: Seq<u8>,
    pub history_address: Seq<u8>,
    pub authority_address: Seq<u8>,
    pub input_box_address: Seq<u8>,
}

impl View for BlockchainConfig {
    type V = BlockchainConfigV;

    open spec fn view(&self) -> BlockchainConfigV {
        BlockchainConfigV {
            dapp_address: self.dapp_address@,
            dapp_deploy_block_hash: self.dapp_deploy_block_hash@,
            history_address: self.history_address@,
            authority_address: self.authority_address@,
            input_box_address: self.input_box_address@,
        }
    }
}

impl BlockchainConfig {
    /// Every field holds its fixed number of bytes.
    pub open spec fn wf(&self) -> bool {
        &&& self.dapp_address.wf()
        &&& self.dapp_deploy_block_hash.wf()
        &&& self.history_address.wf()
        &&& self.authority_address.wf()
        &&& self.input_box_address.wf()
    }
}

/// The five merge slots while resolution is under way: each holds the typed
/// value found so far, if any.
pub ghost struct PartialV {
    pub dapp_address: Option<Seq<u8>>,
    pub dapp_deploy_block_hash: Option<Seq<u8>>,
    pub history_address: Option<Seq<u8>>,
    pub authority_address: Option<Seq<u8>>,
    pub input_box_address: Option<Seq<u8>>,
}

/// Typed parse of the five direct raw values: `None` as soon as one present
/// raw string fails to parse, which is terminal whatever the files hold.
pub open spec fn spec_direct(cli: BlockchainCLIConfigV) -> Option<PartialV> {
    match (spec_opt_address(cli.dapp_address), spec_opt_hash(cli.dapp_deploy_block_hash), spec_opt_address(cli.history_address), spec_opt_address(cli.authority_address), spec_opt_address(cli.input_box_address)) {
        (
            Some(dapp_address),
            Some(dapp_deploy_block_hash),
            Some(history_address),
            Some(authority_address),
            Some(input_box_address),
        ) => Some(
            PartialV {
                dapp_address,
                dapp_deploy_block_hash,
                history_address,
                authority_address,
                input_box_address,
            },
        ),
        _ => None,
    }
}

/// The first of two optional values: a value already set is kept, the second
/// fills the slot only where the first is absent.
pub open spec fn or_else(a: Option<Seq<u8>>, b: Option<Seq<u8>>) -> Option<Seq<u8>> {
    if a is Some {
        a
    } else {
        b
    }
}

/// The `address` of an optionally-present contract entry.
pub open spec fn entry_address(e: Option<ContractV>) -> Option<Seq<u8>> {
    match e {
        Some(c) => c.address,
        None => None,
    }
}

/// The path a referenced file was given by, for an error message; the empty
/// path where none was supplied.
pub open spec fn opt_path(o: Option<Seq<char>>) -> Seq<char> {
    match o {
        Some(p) => p,
        None => Seq::empty(),
    }
}

/// Applies the dapp deployment file to the merge: an unreadable referenced
/// file or one that does not parse is a terminal error carrying the path,
/// even where both values it could supply are already set; a parsed file
/// fills only the still-unset `dapp_address` and `dapp_deploy_block_hash`.
pub open spec fn spec_apply_dapp_file(p: PartialV, dapp: FileReadV, path: Seq<char>) -> Result<
    PartialV,
    ConfigErrorV,
> {
    match dapp {
        FileReadV::Absent => Ok(p),
        FileReadV::Unreadable => Err(ConfigErrorV::ReadFileError { path }),
        FileReadV::Contents(s) => match spec_parse_dapp_deployment(s) {
            None => Err(ConfigErrorV::JsonReadError { path }),
            Some(c) => Ok(
                PartialV {
                    dapp_address: or_else(p.dapp_address, c.address),
                    dapp_deploy_block_hash: or_else(p.dapp_deploy_block_hash, c.block_hash),
                    history_address: p.history_address,
                    authority_address: p.authority_address,
                    input_box_address: p.input_box_address,
                },
            ),
        },
    }
}

/// Applies the rollups deployment file to the merge under the same file-error
/// rules as the dapp file; a parsed file fills only the still-unset
/// `history_address`, `authority_address` and `input_box_address`, each from
/// the `address` of its named entry, where that entry and its address are
/// both present.
pub open spec fn spec_apply_rollups_file(p: PartialV, rollups: FileReadV, path: Seq<char>) -> Result<
    PartialV,
    ConfigErrorV,
> {
    match rollups {
        FileReadV::Absent => Ok(p),
        FileReadV::Unreadable => Err(ConfigErrorV::ReadFileError { path }),
        FileReadV::Contents(s) => match spec_parse_rollups_deployment(s) {
            None => Err(ConfigErrorV::JsonReadError { path }),
            Some(c) => Ok(
                PartialV {
                    dapp_address: p.dapp_address,
                    dapp_deploy_block_hash: p.dapp_deploy_block_hash,
                    history_address: or_else(p.history_address, entry_address(c.history)),
                    authority_address: or_else(p.authority_address, entry_address(c.authority)),
                    input_box_address: or_else(p.input_box_address, entry_address(c.input_box)),
                },
            ),
        },
    }
}

/// The full merge: direct values first, then the dapp deployment file, then
/// the rollups deployment file.
pub open spec fn spec_merge(
    cli: BlockchainCLIConfigV,
    dapp: FileReadV,
    rollups: FileReadV,
) -> Result<PartialV, ConfigErrorV> {
    match spec_direct(cli) {
        None => Err(ConfigErrorV::JsonDeserializeError),
        Some(p0) => match spec_apply_dapp_file(p0, dapp, opt_path(cli.dapp_deployment_file)) {
            Err(e) => Err(e),
            Ok(p1) => spec_apply_rollups_file(p1, rollups, opt_path(cli.rollups_deployment_file)),
        },
    }
}

/// The name of the first field, in the fixed check order, that is still unset
/// after the full merge; `None` where all five are set.
pub open spec fn spec_missing_name(p: PartialV) -> Option<Seq<char>> {
    if p.dapp_address is None {
        Some("dapp_address"@)
    } else if p.dapp_deploy_block_hash is None {
        Some("dapp_deploy_block_hash"@)
    } else if p.history_address is None {
        Some("history_address"@)
    } else if p.authority_address is None {
        Some("authority_address"@)
    } else if p.input_box_address is None {
        Some("input_box_address"@)
    } else {
        None
    }
}

/// Full resolution: the merge, then the check that every field is set.
pub open spec fn spec_resolve(
    cli: BlockchainCLIConfigV,
    dapp: FileReadV,
    rollups: FileReadV,
) -> Result<BlockchainConfigV, ConfigErrorV> {
    match spec_merge(cli, dapp, rollups) {
        Err(e) => Err(e),
        Ok(p) => match spec_missing_name(p) {
            Some(name) => Err(ConfigErrorV::MissingConfig { name }),
            None => Ok(
                BlockchainConfigV {
                    dapp_address: p.dapp_address->0,
                    dapp_deploy_block_hash: p.dapp_deploy_block_hash->0,
                    history_address: p.history_address->0,
                    authority_address: p.authority_address->0,
                    input_box_address: p.input_box_address->0,
                },
            ),
        },
    }
}

/// Spec view of resolution's outcome.
pub open spec fn resolve_view(
    r: Result<BlockchainConfig, BlockchainConfigError>,
) -> Result<BlockchainConfigV, ConfigErrorV> {
    match r {
        Ok(c) => Ok(c@),
        Err(e) => Err(e@),
    }
}

/// The path carried by a file error: the supplied path, or the empty string
/// where none was supplied.
fn path_string(p: &Option<String>) -> (r: String)
    ensures
        r@ == opt_path(opt_str_view(*p)),
{
    match p {
        Some(s) => s.clone(),
        None => String::new(),
    }
}

impl BlockchainConfig {
    /// Resolves the five required configuration values from the raw inputs
    /// and the contents of the two referenced deployment files (read by the
    /// caller; `FileRead::Absent` exactly where the matching path in `cli` is
    /// absent).
    ///
    /// Direct raw values are parsed first; a parse failure there is terminal.
    /// Each referenced file is then consulted unconditionally — an unreadable
    /// or malformed file is a terminal error carrying its path — and fills
    /// only still-unset fields. Finally the first field, in the fixed order
    /// `dapp_address`, `dapp_deploy_block_hash`, `history_address`,
    /// `authority_address`, `input_box_address`, that is still unset fails
    /// resolution with an error naming it.
    pub fn resolve(cli: BlockchainCLIConfig, dapp_file: FileRead, rollups_file: FileRead) -> (r:
        Result<BlockchainConfig, BlockchainConfigError>)
        ensures
            resolve_view(r) == spec_resolve(cli@, dapp_file@, rollups_file@),
            r is Ok ==> r->Ok_0.wf(),
    {
        let mut dapp_address = match cli.dapp_address {
            None => None,
            Some(s) => match Address::parse(s.as_str()) {
                Some(v) => Some(v),
                None => {
                    return Err(BlockchainConfigError::JsonDeserializeError);
                },
            },
        };
        let mut dapp_deploy_block_hash = match cli.dapp_deploy_block_hash {
            None => None,
            Some(s) => match crate::values::Hash::parse(s.as_str()) {
                Some(v) => Some(v),
                None => {
                    return Err(BlockchainConfigError::JsonDeserializeError);
                },
            },
        };
        let mut history_address = match cli.history_address {
            None => None,
            Some(s) => match Address::parse(s.as_str()) {
                Some(v) => Some(v),
                None => {
                    return Err(BlockchainConfigError::JsonDeserializeError);
                },
            },
        };
        let mut authority_address = match cli.authority_address {
            None => None,
            Some(s) => match Address::parse(s.as_str()) {
                Some(v) => Some(v),
                None => {
                    return Err(BlockchainConfigError::JsonDeserializeError);
                },
            },
        };
        let mut input_box_address = match cli.input_box_address {
            None => None,
            Some(s) => match Address::parse(s.as_str()) {
                Some(v) => Some(v),
                None => {
                    return Err(BlockchainConfigError::JsonDeserializeError);
                },
            },
        };
        match dapp_file {
            FileRead::Absent => {},
            FileRead::Unreadable => {
                return Err(
                    BlockchainConfigError::ReadFileError {
                        path: path_string(&cli.dapp_deployment_file),
                    },
                );
            },
            FileRead::Contents(s) => match parse_dapp_deployment(s.as_str()) {
                None => {
                    return Err(
                        BlockchainConfigError::JsonReadError {
                            path: path_string(&cli.dapp_deployment_file),
                        },
                    );
                },
                Some(c) => {
                    if dapp_address.is_none() {
                        dapp_address = c.address;
                    }
                    if dapp_deploy_block_hash.is_none() {
                        dapp_deploy_block_hash = c.block_hash;
                    }
                },
            },
        }
        match rollups_file {
            FileRead::Absent => {},
            FileRead::Unreadable => {
                return Err(
                    BlockchainConfigError::ReadFileError {
                        path: path_string(&cli.rollups_deployment_file),
                    },
                );
            },
            FileRead::Contents(s) => match parse_rollups_deployment(s.as_str()) {
                None => {
                    return Err(
                        BlockchainConfigError::JsonReadError {
                            path: path_string(&cli.rollups_deployment_file),
                        },
                    );
                },
                Some(d) => {
                    if history_address.is_none() {
                        history_address = match d.contracts.history {
                            Some(c) => c.address,
                            None => None,
                        };
                    }
                    if authority_address.is_none() {
                        authority_address = match d.contracts.authority {
                            Some(c) => c.address,
                            None => None,
                        };
                    }
                    if input_box_address.is_none() {
                        input_box_address = match d.contracts.input_box {
                            Some(c) => c.address,
                            None => None,
                        };
                    }
                },
            },
        }
        let dapp_address = match dapp_address {
            Some(v) => v,
            None => {
                return Err(BlockchainConfigError::MissingConfig { name: "dapp_address".to_owned() });
            },
        };
        let dapp_deploy_block_hash = match dapp_deploy_block_hash {
            Some(v) => v,
            None => {
                return Err(
                    BlockchainConfigError::MissingConfig {
                        name: "dapp_deploy_block_hash".to_owned(),
                    },
                );
            },
        };
        let history_address = match history_address {
            Some(v) => v,
            None => {
                return Err(
                    BlockchainConfigError::MissingConfig { name: "history_address".to_owned() },
                );
            },
        };
        let authority_address = match authority_address {
            Some(v) => v,
            None => {
                return Err(
                    BlockchainConfigError::MissingConfig { name: "authority_address".to_owned() },
                );
            },
        };
        let input_box_address = match input_box_address {
            Some(v) => v,
            None => {
                return Err(
                    BlockchainConfigError::MissingConfig { name: "input_box_address".to_owned() },
                );
            },
        };
        Ok(
            BlockchainConfig {
                dapp_address,
                dapp_deploy_block_hash,
                history_address,
                authority_address,
                input_box_address,
            },
        )
    }
}

/// Law: a direct raw value always takes precedence over any file-derived
/// value. Whenever resolution succeeds, each field whose raw value was
/// supplied directly resolves to exactly the parse of that raw string,
/// whatever the two deployment files held — even a well-formed file value
/// that differs.
pub proof fn lemma_direct_value_precedence(
    cli: BlockchainCLIConfigV,
    dapp: FileReadV,
    rollups: FileReadV,
)
    requires
        spec_resolve(cli, dapp, rollups) is Ok,
    ensures
        cli.dapp_address is Some ==> spec_parse_address(cli.dapp_address->0) == Some(
            spec_resolve(cli, dapp, rollups)->Ok_0.dapp_address,
        ),
        cli.dapp_deploy_block_hash is Some ==> spec_parse_hash(cli.dapp_deploy_block_hash->0)
            == Some(spec_resolve(cli, dapp, rollups)->Ok_0.dapp_deploy_block_hash),
        cli.history_address is Some ==> spec_parse_address(cli.history_address->0) == Some(
            spec_resolve(cli, dapp, rollups)->Ok_0.history_address,
        ),
        cli.authority_address is Some ==> spec_parse_address(cli.authority_address->0) == Some(
            spec_resolve(cli, dapp, rollups)->Ok_0.authority_address,
        ),
        cli.input_box_address is Some ==> spec_parse_address(cli.input_box_address->0) == Some(
            spec_resolve(cli, dapp, rollups)->Ok_0.input_box_address,
        ),
{
}

/// Law: with no direct values for the three rollups contract fields, a merge
/// that consulted a rollups deployment file yields for those fields exactly
/// the addresses parsed from that file's entries.
pub proof fn lemma_rollups_addresses_from_file(
    cli: BlockchainCLIConfigV,
    dapp: FileReadV,
    s: Seq<char>,
)
    requires
        cli.history_address is None,
        cli.authority_address is None,
        cli.input_box_address is None,
        spec_merge(cli, dapp, FileReadV::Contents(s)) is Ok,
    ensures
        spec_parse_rollups_deployment(s) is Some,
        ({
            let c = spec_parse_rollups_deployment(s)->0;
            let p = spec_merge(cli, dapp, FileReadV::Contents(s))->Ok_0;
            &&& p.history_address == entry_address(c.history)
            &&& p.authority_address == entry_address(c.authority)
            &&& p.input_box_address == entry_address(c.input_box)
        }),
{
}

/// Law: a direct raw value that fails to parse is terminal — resolution
/// fails with the deserialize error whatever the two files hold, even where
/// a well-formed file value could have filled the field.
pub proof fn lemma_direct_parse_failure_terminal(
    cli: BlockchainCLIConfigV,
    dapp: FileReadV,
    rollups: FileReadV,
)
    requires
        ({
            ||| cli.dapp_address is Some && spec_parse_address(cli.dapp_address->0) is None
            ||| cli.dapp_deploy_block_hash is Some && spec_parse_hash(
                cli.dapp_deploy_block_hash->0,
            ) is None
            ||| cli.history_address is Some && spec_parse_address(cli.history_address->0) is None
            ||| cli.authority_address is Some && spec_parse_address(cli.authority_address->0)
                is None
            ||| cli.input_box_address is Some && spec_parse_address(cli.input_box_address->0)
                is None
        }),
    ensures
        spec_resolve(cli, dapp, rollups) == Err::<BlockchainConfigV, ConfigErrorV>(
            ConfigErrorV::JsonDeserializeError,
        ),
{
}

/// Law: a referenced but unreadable dapp deployment file is terminal, even
/// where every value it could supply is already satisfied by direct values —
/// resolution fails with the read error carrying that file's path.
pub proof fn lemma_unreadable_dapp_file_terminal(cli: BlockchainCLIConfigV, rollups: FileReadV)
    requires
        spec_direct(cli) is Some,
    ensures
        spec_resolve(cli, FileReadV::Unreadable, rollups) == Err::<
            BlockchainConfigV,
            ConfigErrorV,
        >(ConfigErrorV::ReadFileError { path: opt_path(cli.dapp_deployment_file) }),
{
}

/// Law: a referenced but unreadable rollups deployment file is terminal once
/// the direct values and the dapp file raised no error, even where every
/// value it could supply is already satisfied — resolution fails with the
/// read error carrying that file's path.
pub proof fn lemma_unreadable_rollups_file_terminal(cli: BlockchainCLIConfigV, dapp: FileReadV)
    requires
        spec_direct(cli) is Some,
        spec_apply_dapp_file(spec_direct(cli)->0, dapp, opt_path(cli.dapp_deployment_file)) is Ok,
    ensures
        spec_resolve(cli, dapp, FileReadV::Unreadable) == Err::<BlockchainConfigV, ConfigErrorV>(
            ConfigErrorV::ReadFileError { path: opt_path(cli.rollups_deployment_file) },
        ),
{
}

} // verus!

