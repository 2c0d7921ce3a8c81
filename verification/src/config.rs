use vstd::prelude::*;
use crate::event::opt_view;

verus! {

/// The raw configuration document, as read from the operator's
/// configuration file: untyped fields, an optional `spark` table.
pub struct Config {
    pub network: String,
    pub storage_path: String,
    pub mnemonic: String,
    pub chain_source: ChainSourceConfig,
    pub lsp: LspConfig,
    pub spark: SparkConfig,
}

/// The raw chain-source table, discriminated by its `type` tag; which
/// of the optional fields are required depends on the tag.
pub struct ChainSourceConfig {
    pub source_type: String,
    pub url: Option<String>,
    pub host: Option<String>,
    pub port: Option<u16>,
    pub username: Option<String>,
    pub password: Option<String>,
}

/// The raw LSP table: network address, node identity, optional token.
pub struct LspConfig {
    pub address: String,
    pub node_id: String,
    pub token: Option<String>,
}

/// Feature-specific settings, defaulted when the table is absent.
#[derive(Clone, Copy, Debug, PartialEq, Eq)]
pub struct SparkConfig {
    pub sync_interval_secs: u32,
    pub prefer_spark_over_lightning: bool,
}

impl Default for SparkConfig {
    fn default() -> (r: Self)
        ensures
            r.sync_interval_secs == 60,
            !r.prefer_spark_over_lightning,
    {
        SparkConfig {
            sync_interval_secs: default_sync_interval(),
            prefer_spark_over_lightning: false,
        }
    }
}

/// Default event-sync interval, in seconds, used when the optional
/// `spark` table leaves `sync_interval_secs` out.
pub fn default_sync_interval() -> (r: u32)
    ensures
        r == 60,
{
    60
}

/// Mathematical model of a raw configuration document.
pub struct ConfigV {
    pub network: Seq<char>,
    pub storage_path: Seq<char>,
    pub mnemonic: Seq<char>,
    pub chain_source: ChainSourceConfigV,
    pub lsp: LspConfigV,
    pub spark: SparkConfig,
}

/// Mathematical model of a raw chain-source table.
pub struct ChainSourceConfigV {
    pub source_type: Seq<char>,
    pub url: Option<Seq<char>>,
    pub host: Option<Seq<char>>,
    pub port: Option<u16>,
    pub username: Option<Seq<char>>,
    pub password: Option<Seq<char>>,
}

/// Mathematical model of a raw LSP table.
pub struct LspConfigV {
    pub address: Seq<char>,
    pub node_id: Seq<char>,
    pub token: Option<Seq<char>>,
}

impl View for ChainSourceConfig {
    type V = ChainSourceConfigV;

    open spec fn view(&self) -> ChainSourceConfigV {
        ChainSourceConfigV {
            source_type: self.source_type@,
            url: opt_view(self.url),
            host: opt_view(self.host),
            port: self.port,
            username: opt_view(self.username),
            password: opt_view(self.password),
        }
    }
}

impl View for LspConfig {
    type V = LspConfigV;

    open spec fn view(&self) -> LspConfigV {
        LspConfigV {
            address: self.address@,
            node_id: self.node_id@,
            token: opt_view(self.token),
        }
    }
}

impl View for Config {
    type V = ConfigV;

    open spec fn view(&self) -> ConfigV {
        ConfigV {
            network: self.network@,
            storage_path: self.storage_path@,
            mnemonic: self.mnemonic@,
            chain_source: self.chain_source@,
            lsp: self.lsp@,
            spark: self.spark,
        }
    }
}

/// The closed set of supported network identifiers.
#[derive(Clone, Copy, PartialEq, Eq, Structural, Debug)]
pub enum Network {
    Bitcoin,
    Testnet,
    Testnet4,
    Signet,
    Regtest,
}

/// A validated chain source: each variant's required fields are
/// non-optional once the variant is selected.
#[allow(inconsistent_fields)]
#[derive(Debug, PartialEq, Eq)]
pub enum ChainSourceSpec {
    Esplora { url: String, username: Option<String>, password: Option<String> },
    Electrum { url: String },
    BitcoindRpc { host: String, port: u16, username: String, password: String },
}

/// Mathematical model of a validated chain source.
#[allow(inconsistent_fields)]
pub enum ChainSourceSpecV {
    Esplora { url: Seq<char>, username: Option<Seq<char>>, password: Option<Seq<char>> },
    Electrum { url: Seq<char> },
    BitcoindRpc { host: Seq<char>, port: u16, username: Seq<char>, password: Seq<char> },
}

impl View for ChainSourceSpec {
    type V = ChainSourceSpecV;

    open spec fn view(&self) -> ChainSourceSpecV {
        match self {
            ChainSourceSpec::Esplora { url, username, password } => ChainSourceSpecV::Esplora {
                url: url@,
                username: opt_view(*username),
                password: opt_view(*password),
            },
            ChainSourceSpec::Electrum { url } => ChainSourceSpecV::Electrum { url: url@ },
            ChainSourceSpec::BitcoindRpc { host, port, username, password } => ChainSourceSpecV::BitcoindRpc {
                host: host@,
                port: *port,
                username: username@,
                password: password@,
            },
        }
    }
}

/// A configuration that failed validation: the first failing check
/// aborts the whole translation.
#[derive(Debug, PartialEq, Eq)]
pub enum ValidationError {
    /// The `network` field is not one of the supported identifiers.
    InvalidNetwork(String),
    /// The selected chain-source variant requires `field`, and the
    /// document leaves it out.
    MissingChainSourceField { source_type: String, field: String },
    /// The `chain_source.type` tag is not one of the supported kinds.
    UnknownChainSourceType(String),
    /// The LSP address does not parse as a network address.
    InvalidLspAddress(String),
    /// The LSP node identity does not parse as a public key.
    InvalidLspNodeId(String),
    /// The seed phrase does not parse as a valid mnemonic.
    InvalidMnemonic(String),
}

/// Mathematical model of a validation error.
pub enum ValidationErrorV {
    InvalidNetwork(Seq<char>),
    MissingChainSourceField { source_type: Seq<char>, field: Seq<char> },
    UnknownChainSourceType(Seq<char>),
    InvalidLspAddress(Seq<char>),
    InvalidLspNodeId(Seq<char>),
    InvalidMnemonic(Seq<char>),
}

impl View for ValidationError {
    type V = ValidationErrorV;

    open spec fn view(&self) -> ValidationErrorV {
        match self {
            ValidationError::InvalidNetwork(s) => ValidationErrorV::InvalidNetwork(s@),
            ValidationError::MissingChainSourceField { source_type, field } =>
                ValidationErrorV::MissingChainSourceField { source_type: source_type@, field: field@ },
            ValidationError::UnknownChainSourceType(s) => ValidationErrorV::UnknownChainSourceType(s@),
            ValidationError::InvalidLspAddress(s) => ValidationErrorV::InvalidLspAddress(s@),
            ValidationError::InvalidLspNodeId(s) => ValidationErrorV::InvalidLspNodeId(s@),
            ValidationError::InvalidMnemonic(s) => ValidationErrorV::InvalidMnemonic(s@),
        }
    }
}

/// The validated wallet-session descriptor. Construction through
/// `Config::into_wallet_config` is the single validation gate for the
/// network and chain-source fields; the seed phrase, LSP address and
/// LSP node identity are carried through for the wallet engine's own
/// parsers, whose failures map to the remaining error variants.
#[derive(Debug, PartialEq, Eq)]
pub struct SessionDescriptor {
    pub network: Network,
    pub storage_path: String,
    pub log_path: String,
    pub mnemonic: String,
    pub chain_source: ChainSourceSpec,
    pub lsp_address: String,
    pub lsp_node_id: String,
    pub lsp_token: Option<String>,
    pub sync_interval_secs: u32,
    pub prefer_spark_over_lightning: bool,
}

/// Mathematical model of a session descriptor.
#[verifier::ext_equal]
pub struct SessionDescriptorV {
    pub network: Network,
    pub storage_path: Seq<char>,
    pub log_path: Seq<char>,
    pub mnemonic: Seq<char>,
    pub chain_source: ChainSourceSpecV,
    pub lsp_address: Seq<char>,
    pub lsp_node_id: Seq<char>,
    pub lsp_token: Option<Seq<char>>,
    pub sync_interval_secs: u32,
    pub prefer_spark_over_lightning: bool,
}

impl View for SessionDescriptor {
    type V = SessionDescriptorV;

    open spec fn view(&self) -> SessionDescriptorV {
        SessionDescriptorV {
            network: self.network,
            storage_path: self.storage_path@,
            log_path: self.log_path@,
            mnemonic: self.mnemonic@,
            chain_source: self.chain_source@,
            lsp_address: self.lsp_address@,
            lsp_node_id: self.lsp_node_id@,
            lsp_token: opt_view(self.lsp_token),
            sync_interval_secs: self.sync_interval_secs,
            prefer_spark_over_lightning: self.prefer_spark_over_lightning,
        }
    }
}

/// Which network a `network` field selects, if any.
pub open spec fn spec_parse_network(s: Seq<char>) -> Option<Network> {
    if s == "bitcoin"@ {
        Option::Some(Network::Bitcoin)
    } else if s == "testnet"@ {
        Option::Some(Network::Testnet)
    } else if s == "testnet4"@ {
        Option::Some(Network::Testnet4)
    } else if s == "signet"@ {
        Option::Some(Network::Signet)
    } else if s == "regtest"@ {
        Option::Some(Network::Regtest)
    } else {
        Option::None
    }
}

/// Chain-source validation: a dispatch on the `type` tag. Each
/// variant's required fields must all be present; the first missing
/// one (in the variant's fixed field order) is the one reported.
pub open spec fn spec_translate_chain_source(c: ChainSourceConfigV) -> Result<ChainSourceSpecV, ValidationErrorV> {
    if c.source_type == "esplora"@ {
        match c.url {
            Option::Some(url) => Result::Ok(ChainSourceSpecV::Esplora {
                url,
                username: c.username,
                password: c.password,
            }),
            Option::None => Result::Err(ValidationErrorV::MissingChainSourceField {
                source_type: c.source_type,
                field: "url"@,
            }),
        }
    } else if c.source_type == "electrum"@ {
        match c.url {
            Option::Some(url) => Result::Ok(ChainSourceSpecV::Electrum { url }),
            Option::None => Result::Err(ValidationErrorV::MissingChainSourceField {
                source_type: c.source_type,
                field: "url"@,
            }),
        }
    } else if c.source_type == "bitcoind_rpc"@ {
        if c.host is None {
            Result::Err(ValidationErrorV::MissingChainSourceField {
                source_type: c.source_type,
                field: "host"@,
            })
        } else if c.port is None {
            Result::Err(ValidationErrorV::MissingChainSourceField {
                source_type: c.source_type,
                field: "port"@,
            })
        } else if c.username is None {
            Result::Err(ValidationErrorV::MissingChainSourceField {
                source_type: c.source_type,
                field: "username"@,
            })
        } else if c.password is None {
            Result::Err(ValidationErrorV::MissingChainSourceField {
                source_type: c.source_type,
                field: "password"@,
            })
        } else {
            Result::Ok(ChainSourceSpecV::BitcoindRpc {
                host: c.host->0,
                port: c.port->0,
                username: c.username->0,
                password: c.password->0,
            })
        }
    } else {
        Result::Err(ValidationErrorV::UnknownChainSourceType(c.source_type))
    }
}

/// The whole translation: network first, then the chain source; the
/// remaining fields are carried over, the log path is derived from the
/// storage path, and the feature settings keep their (possibly
/// defaulted) values. The first failing validation aborts the whole
/// translation.
pub open spec fn spec_translate(c: ConfigV) -> Result<SessionDescriptorV, ValidationErrorV> {
    match spec_parse_network(c.network) {
        Option::None => Result::Err(ValidationErrorV::InvalidNetwork(c.network)),
        Option::Some(network) => match spec_translate_chain_source(c.chain_source) {
            Result::Err(e) => Result::Err(e),
            Result::Ok(chain_source) => Result::Ok(SessionDescriptorV {
                network,
                storage_path: c.storage_path,
                log_path: c.storage_path + "/wallet.log"@,
                mnemonic: c.mnemonic,
                chain_source,
                lsp_address: c.lsp.address,
                lsp_node_id: c.lsp.node_id,
                lsp_token: c.lsp.token,
                sync_interval_secs: c.spark.sync_interval_secs,
                prefer_spark_over_lightning: c.spark.prefer_spark_over_lightning,
            }),
        },
    }
}

/// The human-readable message reported for a validation error.
pub open spec fn message_spec(e: ValidationErrorV) -> Seq<char> {
    match e {
        ValidationErrorV::InvalidNetwork(v) => "Invalid network: "@ + v,
        ValidationErrorV::MissingChainSourceField { source_type, field } =>
            source_type + " chain_source requires '"@ + field + "'"@,
        ValidationErrorV::UnknownChainSourceType(t) => "Unknown chain_source type: "@ + t,
        ValidationErrorV::InvalidLspAddress(a) => "Invalid LSP address: "@ + a,
        ValidationErrorV::InvalidLspNodeId(d) => "Invalid LSP node_id: "@ + d,
        ValidationErrorV::InvalidMnemonic(d) => "Invalid mnemonic: "@ + d,
    }
}

impl ValidationError {
    /// Renders this error as the human-readable message the operator
    /// sees, exactly as `message_spec` says.
    pub fn message(&self) -> (r: String)
        ensures
            r@ == message_spec(self@),
    {
        match self {
            ValidationError::InvalidNetwork(v) => String::from_str("Invalid network: ").concat(
                v.as_str(),
            ),
            ValidationError::MissingChainSourceField { source_type, field } => source_type
                .clone()
                .concat(" chain_source requires '")
                .concat(field.as_str())
                .concat("'"),
            ValidationError::UnknownChainSourceType(t) => String::from_str(
                "Unknown chain_source type: ",
            ).concat(t.as_str()),
            ValidationError::InvalidLspAddress(a) => String::from_str(
                "Invalid LSP address: ",
            ).concat(a.as_str()),
            ValidationError::InvalidLspNodeId(d) => String::from_str(
                "Invalid LSP node_id: ",
            ).concat(d.as_str()),
            ValidationError::InvalidMnemonic(d) => String::from_str(
                "Invalid mnemonic: ",
            ).concat(d.as_str()),
        }
    }
}

/// For each supported chain-source kind, validation succeeds exactly
/// when every field its table requires is present — and no other
/// kind's required fields are enforced: esplora and electrum need
/// only `url` (esplora's optional credentials pass through
/// unchanged), bitcoind_rpc needs all of `host`, `port`, `username`
/// and `password`; and a failure always names a required field of the
/// selected kind.
pub proof fn lemma_chain_source_required_fields(c: ChainSourceConfigV)
    ensures
        c.source_type == "esplora"@ ==> ((spec_translate_chain_source(c) is Ok) <==> c.url is Some),
        c.source_type == "esplora"@ && c.url is Some ==> spec_translate_chain_source(c)
            == Result::<ChainSourceSpecV, ValidationErrorV>::Ok(ChainSourceSpecV::Esplora {
            url: c.url->0,
            username: c.username,
            password: c.password,
        }),
        c.source_type == "electrum"@ ==> ((spec_translate_chain_source(c) is Ok) <==> c.url is Some),
        c.source_type == "bitcoind_rpc"@ ==> ((spec_translate_chain_source(c) is Ok) <==> (
        c.host is Some && c.port is Some && c.username is Some && c.password is Some)),
        (c.source_type == "esplora"@ || c.source_type == "electrum"@) && c.url is None
            ==> spec_translate_chain_source(c) == Result::<ChainSourceSpecV, ValidationErrorV>::Err(
            ValidationErrorV::MissingChainSourceField { source_type: c.source_type, field: "url"@ },
        ),
        spec_translate_chain_source(c) matches Result::Err(
            ValidationErrorV::MissingChainSourceField { source_type, field },
        ) ==> source_type == c.source_type && (field == "url"@ || field == "host"@ || field
            == "port"@ || field == "username"@ || field == "password"@),
{
    reveal_strlit("esplora");
    reveal_strlit("electrum");
    reveal_strlit("bitcoind_rpc");
    assert("esplora"@.len() == 7);
    assert("electrum"@.len() == 8);
    assert("bitcoind_rpc"@.len() == 12);
    assert("bitcoind_rpc"@ != "esplora"@);
    assert("bitcoind_rpc"@ != "electrum"@);
}

/// An unrecognized `chain_source.type` tag always fails with an error
/// identifying that tag, whatever the other fields hold; with a valid
/// network the whole translation fails the same way.
pub proof fn lemma_unknown_chain_source_type(c: ConfigV)
    requires
        c.chain_source.source_type != "esplora"@,
        c.chain_source.source_type != "electrum"@,
        c.chain_source.source_type != "bitcoind_rpc"@,
    ensures
        spec_translate_chain_source(c.chain_source) == Result::<
            ChainSourceSpecV,
            ValidationErrorV,
        >::Err(ValidationErrorV::UnknownChainSourceType(c.chain_source.source_type)),
        spec_parse_network(c.network) is Some ==> spec_translate(c) == Result::<
            SessionDescriptorV,
            ValidationErrorV,
        >::Err(ValidationErrorV::UnknownChainSourceType(c.chain_source.source_type)),
{
}

/// For `bitcoind_rpc`, the first missing field in the order host,
/// port, username, password is the one the error cites; in
/// particular, a table with `host` but no `port` fails citing `port`.
pub proof fn lemma_bitcoind_rpc_field_order(c: ChainSourceConfigV)
    requires
        c.source_type == "bitcoind_rpc"@,
    ensures
        c.host is None ==> spec_translate_chain_source(c) == Result::<
            ChainSourceSpecV,
            ValidationErrorV,
        >::Err(ValidationErrorV::MissingChainSourceField {
            source_type: c.source_type,
            field: "host"@,
        }),
        c.host is Some && c.port is None ==> spec_translate_chain_source(c) == Result::<
            ChainSourceSpecV,
            ValidationErrorV,
        >::Err(ValidationErrorV::MissingChainSourceField {
            source_type: c.source_type,
            field: "port"@,
        }),
        c.host is Some && c.port is Some && c.username is None ==> spec_translate_chain_source(c)
            == Result::<ChainSourceSpecV, ValidationErrorV>::Err(
            ValidationErrorV::MissingChainSourceField {
                source_type: c.source_type,
                field: "username"@,
            },
        ),
        c.host is Some && c.port is Some && c.username is Some && c.password is None
            ==> spec_translate_chain_source(c) == Result::<ChainSourceSpecV, ValidationErrorV>::Err(
            ValidationErrorV::MissingChainSourceField {
                source_type: c.source_type,
                field: "password"@,
            },
        ),
{
    reveal_strlit("esplora");
    reveal_strlit("electrum");
    reveal_strlit("bitcoind_rpc");
    assert("esplora"@.len() == 7);
    assert("electrum"@.len() == 8);
    assert("bitcoind_rpc"@.len() == 12);
    assert("bitcoind_rpc"@ != "esplora"@);
    assert("bitcoind_rpc"@ != "electrum"@);
}

/// Whether a string equals a given literal.
fn str_is(s: &String, lit: &str) -> (r: bool)
    ensures
        r == (s@ == lit@),
{
    let owned = lit.to_owned();
    String::eq(s, &owned)
}

/// Parses the `network` field against the closed set of supported
/// network identifiers.
pub fn parse_network(s: &String) -> (r: Option<Network>)
    ensures
        r == spec_parse_network(s@),
{
    if str_is(s, "bitcoin") {
        Option::Some(Network::Bitcoin)
    } else if str_is(s, "testnet") {
        Option::Some(Network::Testnet)
    } else if str_is(s, "testnet4") {
        Option::Some(Network::Testnet4)
    } else if str_is(s, "signet") {
        Option::Some(Network::Signet)
    } else if str_is(s, "regtest") {
        Option::Some(Network::Regtest)
    } else {
        Option::None
    }
}

impl ChainSourceConfig {
    /// Validates this chain-source table against the field table of
    /// the variant its `type` tag selects.
    pub fn translate(self) -> (r: Result<ChainSourceSpec, ValidationError>)
        ensures
            match r {
                Result::Ok(cs) => spec_translate_chain_source(self@) == Result::<ChainSourceSpecV, ValidationErrorV>::Ok(cs@),
                Result::Err(e) => spec_translate_chain_source(self@) == Result::<ChainSourceSpecV, ValidationErrorV>::Err(e@),
            },
    {
        if str_is(&self.source_type, "esplora") {
            match self.url {
                Option::Some(url) => Result::Ok(ChainSourceSpec::Esplora {
                    url,
                    username: self.username,
                    password: self.password,
                }),
                Option::None => Result::Err(ValidationError::MissingChainSourceField {
                    source_type: self.source_type,
                    field: String::from_str("url"),
                }),
            }
        } else if str_is(&self.source_type, "electrum") {
            match self.url {
                Option::Some(url) => Result::Ok(ChainSourceSpec::Electrum { url }),
                Option::None => Result::Err(ValidationError::MissingChainSourceField {
                    source_type: self.source_type,
                    field: String::from_str("url"),
                }),
            }
        } else if str_is(&self.source_type, "bitcoind_rpc") {
            match (self.host, self.port, self.username, self.password) {
                (Option::Some(host), Option::Some(port), Option::Some(username), Option::Some(password)) =>
                    Result::Ok(ChainSourceSpec::BitcoindRpc { host, port, username, password }),
                (Option::None, _, _, _) => Result::Err(ValidationError::MissingChainSourceField {
                    source_type: self.source_type,
                    field: String::from_str("host"),
                }),
                (Option::Some(_), Option::None, _, _) => Result::Err(ValidationError::MissingChainSourceField {
                    source_type: self.source_type,
                    field: String::from_str("port"),
                }),
                (Option::Some(_), Option::Some(_), Option::None, _) => Result::Err(ValidationError::MissingChainSourceField {
                    source_type: self.source_type,
                    field: String::from_str("username"),
                }),
                (Option::Some(_), Option::Some(_), Option::Some(_), Option::None) => Result::Err(ValidationError::MissingChainSourceField {
                    source_type: self.source_type,
                    field: String::from_str("password"),
                }),
            }
        } else {
            Result::Err(ValidationError::UnknownChainSourceType(self.source_type))
        }
    }
}

impl Config {
    /// Validates this raw configuration and translates it into the
    /// wallet-session descriptor: the result is exactly what
    /// `spec_translate` says, success and failure alike.
    pub fn into_wallet_config(self) -> (r: Result<SessionDescriptor, ValidationError>)
        ensures
            match r {
                Result::Ok(sd) => spec_translate(self@) == Result::<SessionDescriptorV, ValidationErrorV>::Ok(sd@),
                Result::Err(e) => spec_translate(self@) == Result::<SessionDescriptorV, ValidationErrorV>::Err(e@),
            },
    {
        let network = match parse_network(&self.network) {
            Option::Some(n) => n,
            Option::None => {
                return Result::Err(ValidationError::InvalidNetwork(self.network));
            }
        };

        let chain_source = match self.chain_source.translate() {
            Result::Ok(cs) => cs,
            Result::Err(e) => {
                return Result::Err(e);
            }
        };

        let log_path = self.storage_path.clone().concat("/wallet.log");

        let sd = SessionDescriptor {
            network,
            storage_path: self.storage_path,
            log_path,
            mnemonic: self.mnemonic,
            chain_source,
            lsp_address: self.lsp.address,
            lsp_node_id: self.lsp.node_id,
            lsp_token: self.lsp.token,
            sync_interval_secs: self.spark.sync_interval_secs,
            prefer_spark_over_lightning: self.spark.prefer_spark_over_lightning,
        };
        proof {
            assert(spec_translate(self@) matches Result::Ok(v) && v =~= sd@);
        }
        Result::Ok(sd)
    }
}

} // verus!
