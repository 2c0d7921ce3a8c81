use orange::{
    ChainSourceConfig, ChainSourceSpec, Config, LspConfig, Network, SparkConfig, ValidationError,
    default_sync_interval, parse_network,
};

fn base_chain_source() -> ChainSourceConfig {
    ChainSourceConfig {
        source_type: String::from("esplora"),
        url: Some(String::from("https://esplora.example")),
        host: None,
        port: None,
        username: None,
        password: None,
    }
}

fn base_config(chain_source: ChainSourceConfig) -> Config {
    Config {
        network: String::from("bitcoin"),
        storage_path: String::from("/var/lib/wallet"),
        mnemonic: String::from("abandon abandon about"),
        chain_source,
        lsp: LspConfig {
            address: String::from("127.0.0.1:9735"),
            node_id: String::from("02abcdef"),
            token: None,
        },
        spark: SparkConfig::default(),
    }
}

#[test]
fn esplora_valid_translates() {
    let config = base_config(base_chain_source());
    let sd = config.into_wallet_config().expect("valid esplora config");
    assert_eq!(sd.network, Network::Bitcoin);
    assert_eq!(sd.storage_path, "/var/lib/wallet");
    assert_eq!(sd.log_path, "/var/lib/wallet/wallet.log");
    assert_eq!(sd.mnemonic, "abandon abandon about");
    assert_eq!(
        sd.chain_source,
        ChainSourceSpec::Esplora {
            url: String::from("https://esplora.example"),
            username: None,
            password: None,
        }
    );
    assert_eq!(sd.lsp_address, "127.0.0.1:9735");
    assert_eq!(sd.lsp_node_id, "02abcdef");
    assert_eq!(sd.lsp_token, None);
    assert_eq!(sd.sync_interval_secs, 60);
    assert!(!sd.prefer_spark_over_lightning);
}

#[test]
fn esplora_credentials_pass_through() {
    let mut cs = base_chain_source();
    cs.username = Some(String::from("user"));
    cs.password = Some(String::from("SECRET-REDACTED"));
    let sd = base_config(cs).into_wallet_config().expect("valid");
    assert_eq!(
        sd.chain_source,
        ChainSourceSpec::Esplora {
            url: String::from("https://esplora.example"),
            username: Some(String::from("user")),
            password: Some(String::from("SECRET-REDACTED")),
        }
    );
}

#[test]
fn esplora_missing_url_names_url() {
    let mut cs = base_chain_source();
    cs.url = None;
    let err = base_config(cs).into_wallet_config().unwrap_err();
    assert_eq!(
        err,
        ValidationError::MissingChainSourceField {
            source_type: String::from("esplora"),
            field: String::from("url"),
        }
    );
    assert_eq!(err.message(), "esplora chain_source requires 'url'");
}

#[test]
fn electrum_valid_translates() {
    let mut cs = base_chain_source();
    cs.source_type = String::from("electrum");
    cs.url = Some(String::from("ssl://electrum.example:50002"));
    let sd = base_config(cs).into_wallet_config().expect("valid");
    assert_eq!(
        sd.chain_source,
        ChainSourceSpec::Electrum { url: String::from("ssl://electrum.example:50002") }
    );
}

#[test]
fn electrum_missing_url_names_url() {
    let mut cs = base_chain_source();
    cs.source_type = String::from("electrum");
    cs.url = None;
    let err = base_config(cs).into_wallet_config().unwrap_err();
    assert_eq!(err.message(), "electrum chain_source requires 'url'");
}

fn bitcoind_chain_source() -> ChainSourceConfig {
    ChainSourceConfig {
        source_type: String::from("bitcoind_rpc"),
        url: None,
        host: Some(String::from("localhost")),
        port: Some(8332),
        username: Some(String::from("rpcuser")),
        password: Some(String::from("SECRET-REDACTED")),
    }
}

#[test]
fn bitcoind_rpc_valid_translates() {
    let sd = base_config(bitcoind_chain_source()).into_wallet_config().expect("valid");
    assert_eq!(
        sd.chain_source,
        ChainSourceSpec::BitcoindRpc {
            host: String::from("localhost"),
            port: 8332,
            username: String::from("rpcuser"),
            password: String::from("SECRET-REDACTED"),
        }
    );
}

#[test]
fn bitcoind_rpc_missing_port_cites_port() {
    let mut cs = bitcoind_chain_source();
    cs.port = None;
    let err = base_config(cs).into_wallet_config().unwrap_err();
    assert_eq!(
        err,
        ValidationError::MissingChainSourceField {
            source_type: String::from("bitcoind_rpc"),
            field: String::from("port"),
        }
    );
    assert_eq!(err.message(), "bitcoind_rpc chain_source requires 'port'");
}

#[test]
fn bitcoind_rpc_first_missing_field_wins() {
    let mut cs = bitcoind_chain_source();
    cs.host = None;
    cs.port = None;
    let err = base_config(cs).into_wallet_config().unwrap_err();
    assert_eq!(err.message(), "bitcoind_rpc chain_source requires 'host'");

    let mut cs = bitcoind_chain_source();
    cs.username = None;
    cs.password = None;
    let err = base_config(cs).into_wallet_config().unwrap_err();
    assert_eq!(err.message(), "bitcoind_rpc chain_source requires 'username'");

    let mut cs = bitcoind_chain_source();
    cs.password = None;
    let err = base_config(cs).into_wallet_config().unwrap_err();
    assert_eq!(err.message(), "bitcoind_rpc chain_source requires 'password'");
}

#[test]
fn bitcoind_rpc_ignores_url_field() {
    let mut cs = bitcoind_chain_source();
    cs.url = Some(String::from("https://ignored.example"));
    assert!(base_config(cs).into_wallet_config().is_ok());
}

#[test]
fn unknown_chain_source_type_is_reported() {
    let mut cs = base_chain_source();
    cs.source_type = String::from("neutrino");
    let err = base_config(cs).into_wallet_config().unwrap_err();
    assert_eq!(err, ValidationError::UnknownChainSourceType(String::from("neutrino")));
    assert_eq!(err.message(), "Unknown chain_source type: neutrino");
}

#[test]
fn unknown_chain_source_type_wins_over_missing_fields() {
    let cs = ChainSourceConfig {
        source_type: String::from("compact_filters"),
        url: None,
        host: None,
        port: None,
        username: None,
        password: None,
    };
    let err = base_config(cs).into_wallet_config().unwrap_err();
    assert_eq!(err, ValidationError::UnknownChainSourceType(String::from("compact_filters")));
}

#[test]
fn invalid_network_is_reported_first() {
    let mut config = base_config(base_chain_source());
    config.network = String::from("mainnet");
    config.chain_source.url = None;
    let err = config.into_wallet_config().unwrap_err();
    assert_eq!(err, ValidationError::InvalidNetwork(String::from("mainnet")));
    assert_eq!(err.message(), "Invalid network: mainnet");
}

#[test]
fn supported_networks_parse() {
    assert_eq!(parse_network(&String::from("bitcoin")), Some(Network::Bitcoin));
    assert_eq!(parse_network(&String::from("testnet")), Some(Network::Testnet));
    assert_eq!(parse_network(&String::from("testnet4")), Some(Network::Testnet4));
    assert_eq!(parse_network(&String::from("signet")), Some(Network::Signet));
    assert_eq!(parse_network(&String::from("regtest")), Some(Network::Regtest));
    assert_eq!(parse_network(&String::from("Bitcoin")), None);
    assert_eq!(parse_network(&String::from("")), None);
}

#[test]
fn spark_defaults() {
    assert_eq!(default_sync_interval(), 60);
    let spark = SparkConfig::default();
    assert_eq!(spark.sync_interval_secs, 60);
    assert!(!spark.prefer_spark_over_lightning);
}

#[test]
fn spark_settings_carry_over() {
    let mut config = base_config(base_chain_source());
    config.spark = SparkConfig { sync_interval_secs: 15, prefer_spark_over_lightning: true };
    config.lsp.token = Some(String::from("SECRET-REDACTED"));
    let sd = config.into_wallet_config().expect("valid");
    assert_eq!(sd.sync_interval_secs, 15);
    assert!(sd.prefer_spark_over_lightning);
    assert_eq!(sd.lsp_token, Some(String::from("SECRET-REDACTED")));
}

#[test]
fn remaining_error_messages_render() {
    let err = ValidationError::InvalidLspAddress(String::from("not-an-address"));
    assert_eq!(err.message(), "Invalid LSP address: not-an-address");
    let err = ValidationError::InvalidLspNodeId(String::from("bad key"));
    assert_eq!(err.message(), "Invalid LSP node_id: bad key");
    let err = ValidationError::InvalidMnemonic(String::from("word count"));
    assert_eq!(err.message(), "Invalid mnemonic: word count");
}
