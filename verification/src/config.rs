//! Configuration from environment variables: the settings of the example
//! programs, the Mina and Aligned facades, and the choice of wallet.
//!
//! Reading the environment (and `.env` files) happens outside; each
//! variable arrives as its value or, when it could not be read, as the text
//! of the error reading it (`Result<String, String>`), or as an `Option`
//! where a missing variable is not an error.
use vstd::prelude::*;
use vstd::string::StringExecFns;

use crate::evm::{address_hex_error, hex_address, parse_address, parse_private_key, private_key_of};
use crate::rpcs::aligned::{
    known_chain_id, network_named, parse_aligned_network, resolve_eth_chain_id, AlignedNetwork,
};
use crate::rpcs::error::{labelled, Error};
use crate::text::{int_parse_error_text, parse_u64_result, str_eq, trim, trimmed};

verus! {

// ---------------------------------------------------------------------------
// Example programs' settings
// ---------------------------------------------------------------------------
/// The variable's value, or for an Anvil devnet setup the default value
/// when it could not be read.
pub fn load_var_or(value: Result<String, String>, key: &str, default: &str, network: &AlignedNetwork) -> (r:
    Result<String, String>)
    ensures
        match value {
            Ok(v) => r matches Ok(s) && s@ == v@,
            Err(e) => if *network == AlignedNetwork::Devnet {
                r matches Ok(s) && s@ == default@
            } else {
                r matches Err(m) && m@ == "Chain selected is not Devnet but couldn't read "@
                    + key@ + ": "@ + e@
            },
        },
{
    match value {
        Ok(v) => Ok(v),
        Err(e) => {
            if let AlignedNetwork::Devnet = network {
                Ok(default.to_owned())
            } else {
                let mut m = labelled("Chain selected is not Devnet but couldn't read ", key);
                m.append(": ");
                m.append(e.as_str());
                Err(m)
            }
        },
    }
}

/// The environment variables the example programs read.
#[derive(Debug)]
pub struct EnvVars {
    pub mina_rpc_url: Result<String, String>,
    pub eth_chain: Result<String, String>,
    pub state_settlement_eth_addr: Option<String>,
    pub account_validation_eth_addr: Option<String>,
    pub batcher_addr: Result<String, String>,
    pub batcher_eth_addr: Result<String, String>,
    pub eth_rpc_url: Result<String, String>,
    pub proof_generator_addr: Result<String, String>,
    pub keystore_path: Option<String>,
    pub private_key: Option<String>,
    pub nori_token_bridge_eth_address: Result<String, String>,
    pub batcher_fee_estm_type: Option<String>,
    pub batcher_max_fee: Option<String>,
}

/// The settings of the example programs.
///
/// - `mina_rpc_url`: Mina node RPC URL to get the Mina state
/// - `eth_network`: the Ethereum network to update the Mina state on
/// - `state_settlement_addr`, `account_validation_addr`: the example
///   contracts, if deployed
/// - `batcher_addr`, `batcher_eth_addr`: the Aligned batcher and its payment
///   service
/// - `eth_rpc_url`: Ethereum node RPC URL
/// - `proof_generator_addr`: address of the Aligned proof generator
/// - `keystore_path`, `private_key`: exactly one of them signs transactions
/// - `nori_token_bridge_eth_addr`: the NoriTokenBridge contract
/// - `batcher_fee_estimation_type`, `batcher_max_fee`: the fee settings
#[derive(Debug, Clone)]
pub struct EnvironmentVariables {
    pub mina_rpc_url: String,
    pub eth_network: AlignedNetwork,
    pub state_settlement_addr: Option<String>,
    pub account_validation_addr: Option<String>,
    pub batcher_addr: String,
    pub batcher_eth_addr: String,
    pub eth_rpc_url: String,
    pub proof_generator_addr: String,
    pub keystore_path: Option<String>,
    pub private_key: Option<String>,
    pub nori_token_bridge_eth_addr: String,
    pub batcher_fee_estimation_type: String,
    pub batcher_max_fee: Option<String>,
}

/// The network an `ETH_CHAIN` value names: `devnet` or `hoodi`.
pub open spec fn eth_chain_named(s: Seq<char>) -> Option<AlignedNetwork> {
    if s == "devnet"@ {
        Some(AlignedNetwork::Devnet)
    } else if s == "hoodi"@ {
        Some(AlignedNetwork::Hoodi)
    } else {
        None
    }
}

/// The message for a required variable that could not be read.
pub open spec fn missing_var_text(name: Seq<char>, e: String) -> Seq<char> {
    "Couldn't get "@ + name + " env. variable: "@ + e@
}

/// The fee estimation type: the variable, `0` by default.
pub open spec fn fee_type_of(v: EnvVars) -> Seq<char> {
    match v.batcher_fee_estm_type {
        Some(t) => t@,
        None => "0"@,
    }
}

/// The error of the example programs' settings, checked in the order the
/// variables are read; none when they are complete.
pub open spec fn env_vars_error(v: EnvVars) -> Option<Seq<char>> {
    if v.mina_rpc_url is Err {
        Some(missing_var_text("MINA_RPC_URL"@, v.mina_rpc_url->Err_0))
    } else if v.eth_chain is Err {
        Some(missing_var_text("ETH_CHAIN"@, v.eth_chain->Err_0))
    } else if eth_chain_named(v.eth_chain->Ok_0@) is None {
        Some(
            "Unrecognized chain, possible values for ETH_CHAIN are \"devnet\" and \"hoodi\"."@,
        )
    } else if v.batcher_addr is Err {
        Some(missing_var_text("BATCHER_ADDR"@, v.batcher_addr->Err_0))
    } else if v.batcher_eth_addr is Err {
        Some(missing_var_text("BATCHER_ETH_ADDR"@, v.batcher_eth_addr->Err_0))
    } else if v.eth_rpc_url is Err {
        Some(missing_var_text("ETH_RPC_URL"@, v.eth_rpc_url->Err_0))
    } else if v.proof_generator_addr is Err {
        Some(missing_var_text("PROOF_GENERATOR_ADDR"@, v.proof_generator_addr->Err_0))
    } else if v.keystore_path is Some && v.private_key is Some {
        Some("Both keystore and private key env. variables are defined. Choose only one."@)
    } else if v.keystore_path is None && v.private_key is None {
        Some("Neither keystore nor private key env. variables are defined."@)
    } else if v.nori_token_bridge_eth_address is Err {
        Some(
            missing_var_text(
                "NORI_TOKEN_BRIDGE_ETH_ADDRESS"@,
                v.nori_token_bridge_eth_address->Err_0,
            ),
        )
    } else {
        None
    }
}

/// Complete settings whose fee estimation type `2` lacks the custom maximum
/// fee it needs: the program stops there.
pub open spec fn env_vars_lack_max_fee(v: EnvVars) -> bool {
    &&& env_vars_error(v) is None
    &&& fee_type_of(v) == "2"@
    &&& v.batcher_max_fee is None
}

/// An optional string seen through its view.
pub open spec fn opt_string_view(s: Option<String>) -> Option<Seq<char>> {
    match s {
        Some(x) => Some(x@),
        None => None,
    }
}

/// `e` holds the settings the complete variables `v` give.
pub open spec fn env_from_vars(v: EnvVars, e: EnvironmentVariables) -> bool {
    &&& e.mina_rpc_url@ == v.mina_rpc_url->Ok_0@
    &&& eth_chain_named(v.eth_chain->Ok_0@) == Some(e.eth_network)
    &&& opt_string_view(e.state_settlement_addr) == opt_string_view(v.state_settlement_eth_addr)
    &&& opt_string_view(e.account_validation_addr) == opt_string_view(
        v.account_validation_eth_addr,
    )
    &&& e.batcher_addr@ == v.batcher_addr->Ok_0@
    &&& e.batcher_eth_addr@ == v.batcher_eth_addr->Ok_0@
    &&& e.eth_rpc_url@ == v.eth_rpc_url->Ok_0@
    &&& e.proof_generator_addr@ == v.proof_generator_addr->Ok_0@
    &&& opt_string_view(e.keystore_path) == opt_string_view(v.keystore_path)
    &&& opt_string_view(e.private_key) == opt_string_view(v.private_key)
    &&& e.nori_token_bridge_eth_addr@ == v.nori_token_bridge_eth_address->Ok_0@
    &&& e.batcher_fee_estimation_type@ == fee_type_of(v)
    &&& opt_string_view(e.batcher_max_fee) == opt_string_view(v.batcher_max_fee)
}

fn required_var(value: Result<String, String>, name: &str) -> (r: Result<String, String>)
    ensures
        match value {
            Ok(s) => r == Ok::<String, String>(s),
            Err(e) => r matches Err(m) && m@ == missing_var_text(name@, e),
        },
{
    match value {
        Ok(s) => Ok(s),
        Err(e) => {
            let mut m = labelled("Couldn't get ", name);
            m.append(" env. variable: ");
            m.append(e.as_str());
            Err(m)
        },
    }
}

impl EnvironmentVariables {
    /// The settings of the example programs from their variables.
    ///
    /// Errs when `MINA_RPC_URL`, `ETH_CHAIN` or another required variable
    /// cannot be read, when `ETH_CHAIN` names no supported network, or when
    /// not exactly one of the keystore and the private key is given.
    pub fn new(v: EnvVars) -> (r: Result<EnvironmentVariables, String>)
        requires
            !env_vars_lack_max_fee(v),
        ensures
            match env_vars_error(v) {
                Some(m) => r matches Err(t) && t@ == m,
                None => r matches Ok(e) && env_from_vars(v, e),
            },
            r matches Ok(e) ==> (e.keystore_path is Some) != (e.private_key is Some),
    {
        let ghost v0 = v;
        let mina_rpc_url = match required_var(v.mina_rpc_url, "MINA_RPC_URL") {
            Ok(s) => s,
            Err(m) => {
                return Err(m);
            },
        };
        let chain = match required_var(v.eth_chain, "ETH_CHAIN") {
            Ok(s) => s,
            Err(m) => {
                return Err(m);
            },
        };
        let eth_network = if str_eq(chain.as_str(), "devnet") {
            AlignedNetwork::Devnet
        } else if str_eq(chain.as_str(), "hoodi") {
            AlignedNetwork::Hoodi
        } else {
            return Err(
                "Unrecognized chain, possible values for ETH_CHAIN are \"devnet\" and \"hoodi\"."
                    .to_owned(),
            );
        };
        let batcher_addr = match required_var(v.batcher_addr, "BATCHER_ADDR") {
            Ok(s) => s,
            Err(m) => {
                return Err(m);
            },
        };
        let batcher_eth_addr = match required_var(v.batcher_eth_addr, "BATCHER_ETH_ADDR") {
            Ok(s) => s,
            Err(m) => {
                return Err(m);
            },
        };
        let eth_rpc_url = match required_var(v.eth_rpc_url, "ETH_RPC_URL") {
            Ok(s) => s,
            Err(m) => {
                return Err(m);
            },
        };
        let proof_generator_addr = match required_var(
            v.proof_generator_addr,
            "PROOF_GENERATOR_ADDR",
        ) {
            Ok(s) => s,
            Err(m) => {
                return Err(m);
            },
        };
        if v.keystore_path.is_some() && v.private_key.is_some() {
            return Err(
                "Both keystore and private key env. variables are defined. Choose only one.".to_owned(),
            );
        } else if v.keystore_path.is_none() && v.private_key.is_none() {
            return Err("Neither keystore nor private key env. variables are defined.".to_owned());
        }
        let nori_token_bridge_eth_addr = match required_var(
            v.nori_token_bridge_eth_address,
            "NORI_TOKEN_BRIDGE_ETH_ADDRESS",
        ) {
            Ok(s) => s,
            Err(m) => {
                return Err(m);
            },
        };
        let batcher_fee_estimation_type = match v.batcher_fee_estm_type {
            Some(t) => t,
            None => "0".to_owned(),
        };
        Ok(
            EnvironmentVariables {
                mina_rpc_url,
                eth_network,
                state_settlement_addr: v.state_settlement_eth_addr,
                account_validation_addr: v.account_validation_eth_addr,
                batcher_addr,
                batcher_eth_addr,
                eth_rpc_url,
                proof_generator_addr,
                keystore_path: v.keystore_path,
                private_key: v.private_key,
                nori_token_bridge_eth_addr,
                batcher_fee_estimation_type,
                batcher_max_fee: v.batcher_max_fee,
            },
        )
    }
}

// ---------------------------------------------------------------------------
// Wallet choice
// ---------------------------------------------------------------------------
/// Where the signing key comes from.
#[derive(Debug, Clone)]
pub enum WalletSource {
    /// An encrypted keystore file at this path (its password is prompted).
    Keystore(String),
    /// A private key: its 32 bytes, a valid secp256k1 secret key.
    PrivateKey([u8; 32]),
}

/// The wallet source of the services: exactly one of `ETH_KEYSTORE_PATH`
/// and `ETH_PRIVATE_KEY` must be set, and a private key must be a valid
/// secp256k1 secret key in hex.
pub fn wallet_source_from_vars(keystore_path: Option<String>, private_key: Option<String>) -> (r:
    Result<WalletSource, Error>)
    ensures
        match (keystore_path, private_key) {
            (Some(_), Some(_)) => r matches Err(e) && e.0@
                == "Both ETH_KEYSTORE_PATH and ETH_PRIVATE_KEY are set. Choose only one."@,
            (Some(p), None) => r matches Ok(WalletSource::Keystore(q)) && q@ == p@,
            (None, Some(k)) => match private_key_of(k@) {
                Some(b) => r matches Ok(WalletSource::PrivateKey(q)) && q@ == b,
                None => r matches Err(e) && e.0@ == "invalid ETH_PRIVATE_KEY"@,
            },
            (None, None) => r matches Err(e) && e.0@
                == "Neither ETH_KEYSTORE_PATH nor ETH_PRIVATE_KEY is set."@,
        },
{
    match (keystore_path, private_key) {
        (Some(_), Some(_)) => Err(
            Error("Both ETH_KEYSTORE_PATH and ETH_PRIVATE_KEY are set. Choose only one.".to_owned()),
        ),
        (Some(p), None) => Ok(WalletSource::Keystore(p)),
        (None, Some(k)) => match parse_private_key(k.as_str()) {
            Some(b) => Ok(WalletSource::PrivateKey(b)),
            None => Err(Error("invalid ETH_PRIVATE_KEY".to_owned())),
        },
        (None, None) => Err(Error("Neither ETH_KEYSTORE_PATH nor ETH_PRIVATE_KEY is set.".to_owned())),
    }
}

/// The wallet source of the example programs: a keystore path or a private
/// key, not both; a private key must be a valid secp256k1 secret key in hex.
pub fn wallet_source_for(keystore_path: Option<&str>, private_key: Option<&str>) -> (r: Result<
    WalletSource,
    String,
>)
    ensures
        match (keystore_path, private_key) {
            (Some(_), Some(_)) => r matches Err(m) && m@
                == "Both keystore and private key env. variables are defined. Choose only one."@,
            (Some(p), None) => r matches Ok(WalletSource::Keystore(q)) && q@ == p@,
            (None, Some(k)) => match private_key_of(k@) {
                Some(b) => r matches Ok(WalletSource::PrivateKey(q)) && q@ == b,
                None => r matches Err(m) && m@ == "Failed to get signer"@,
            },
            (None, None) => r matches Err(m) && m@ == "couldn't find KEYSTORE_PATH or PRIVATE_KEY."@,
        },
{
    match (keystore_path, private_key) {
        (Some(_), Some(_)) => Err(
            "Both keystore and private key env. variables are defined. Choose only one.".to_owned(),
        ),
        (Some(p), None) => Ok(WalletSource::Keystore(p.to_owned())),
        (None, Some(k)) => match parse_private_key(k) {
            Some(b) => Ok(WalletSource::PrivateKey(b)),
            None => Err("Failed to get signer".to_owned()),
        },
        (None, None) => Err("couldn't find KEYSTORE_PATH or PRIVATE_KEY.".to_owned()),
    }
}

// ---------------------------------------------------------------------------
// Facade settings
// ---------------------------------------------------------------------------
/// The error for a facade variable that could not be read: the variable's
/// name, a colon and the text of the error.
pub fn var_error(name: &str, detail: &str) -> (e: Error)
    ensures
        e.0@ == name@ + ": "@ + detail@,
{
    let mut m = labelled(name, ": ");
    m.append(detail);
    Error(m)
}

/// The Mina network a daemon serves.
#[derive(Debug, Clone, Copy, PartialEq, Eq, Structural)]
pub enum MinaNetwork {
    Mainnet,
    Devnet,
}

impl MinaNetwork {
    pub fn is_devnet(&self) -> (r: bool)
        ensures
            r == (*self == MinaNetwork::Devnet),
    {
        match self {
            MinaNetwork::Devnet => true,
            MinaNetwork::Mainnet => false,
        }
    }
}

/// The Mina network a `MINA_NETWORK` value names, after trimming whitespace.
pub open spec fn mina_network_named(s: Seq<char>) -> Option<MinaNetwork> {
    if trimmed(s) == "mainnet"@ {
        Some(MinaNetwork::Mainnet)
    } else if trimmed(s) == "devnet"@ {
        Some(MinaNetwork::Devnet)
    } else {
        None
    }
}

/// The Mina network from the `MINA_NETWORK` variable.
pub fn mina_network_from_var(value: Result<String, String>) -> (r: Result<MinaNetwork, Error>)
    ensures
        match value {
            Err(e) => r matches Err(x) && x.0@ == "MINA_NETWORK: "@ + e@,
            Ok(s) => match mina_network_named(s@) {
                Some(n) => r == Ok::<MinaNetwork, Error>(n),
                None => r matches Err(x) && x.0@ == "invalid MINA_NETWORK: '"@ + trimmed(s@)
                    + "', expected 'mainnet' or 'devnet'"@,
            },
        },
{
    proof {
        reveal_strlit("MINA_NETWORK");
        reveal_strlit(": ");
        reveal_strlit("MINA_NETWORK: ");
    }
    let s = match value {
        Ok(s) => s,
        Err(e) => {
            return Err(var_error("MINA_NETWORK", e.as_str()));
        },
    };
    let t = trim(s.as_str());
    if str_eq(t.as_str(), "mainnet") {
        Ok(MinaNetwork::Mainnet)
    } else if str_eq(t.as_str(), "devnet") {
        Ok(MinaNetwork::Devnet)
    } else {
        let mut m = labelled("invalid MINA_NETWORK: '", t.as_str());
        m.append("', expected 'mainnet' or 'devnet'");
        Err(Error(m))
    }
}

/// An address variable: read, trimmed and parsed as hex.
pub fn address_from_var(value: Result<String, String>, name: &str) -> (r: Result<[u8; 20], Error>)
    ensures
        match value {
            Err(e) => r matches Err(x) && x.0@ == name@ + ": "@ + e@,
            Ok(s) => match hex_address(trimmed(s@)) {
                Some(a) => r matches Ok(b) && b@ == a,
                None => r matches Err(x) && x.0@ == "invalid "@ + name@ + ": "@ + address_hex_error(
                    trimmed(s@),
                ),
            },
        },
{
    let s = match value {
        Ok(s) => s,
        Err(e) => {
            return Err(var_error(name, e.as_str()));
        },
    };
    let t = trim(s.as_str());
    match parse_address(t.as_str()) {
        Ok(a) => Ok(a),
        Err(detail) => {
            let mut m = labelled("invalid ", name);
            m.append(": ");
            m.append(detail.as_str());
            Err(Error(m))
        },
    }
}

/// The settings of the Aligned facade.
#[derive(Debug, Clone)]
pub struct AlignedSettings {
    pub aligned_network: AlignedNetwork,
    pub aligned_proof_generator_addr: [u8; 20],
    pub eth_rpc_url: String,
    pub eth_chain_id: u64,
}

/// The settings of the Aligned facade from `ALIGNED_NETWORK`,
/// `ALIGNED_PROOF_GENERATOR_ADDR`, `ETH_RPC_URL` and, for a custom network
/// only, `ETH_CHAIN_ID`, checked in that order.
pub fn aligned_settings_from_vars(
    aligned_network: Result<String, String>,
    proof_generator_addr: Result<String, String>,
    eth_rpc_url: Result<String, String>,
    eth_chain_id: Result<String, String>,
) -> (r: Result<AlignedSettings, Error>)
    ensures
        match aligned_network {
            Err(e) => r matches Err(x) && x.0@ == "ALIGNED_NETWORK: "@ + e@,
            Ok(n) => match network_named(n@) {
                None => r matches Err(x) && x.0@ == "invalid ALIGNED_NETWORK: '"@ + trimmed(n@)
                    + "', expected one of: devnet, holesky, holesky_stage, hoodi, mainnet, mainnet_stage, sepolia"@,
                Some(net) => match proof_generator_addr {
                    Err(e) => r matches Err(x) && x.0@ == "ALIGNED_PROOF_GENERATOR_ADDR: "@ + e@,
                    Ok(p) => match hex_address(trimmed(p@)) {
                        None => r matches Err(x) && x.0@ == "invalid ALIGNED_PROOF_GENERATOR_ADDR: "@
                            + address_hex_error(trimmed(p@)),
                        Some(addr) => match eth_rpc_url {
                            Err(e) => r matches Err(x) && x.0@ == "ETH_RPC_URL: "@ + e@,
                            Ok(u) => match known_chain_id(net) {
                                Some(id) => r matches Ok(s) && s.aligned_network == net
                                    && s.aligned_proof_generator_addr@ == addr
                                    && s.eth_rpc_url@ == trimmed(u@) && s.eth_chain_id == id,
                                None => match eth_chain_id {
                                    Err(e) => r matches Err(x) && x.0@
                                        == "ETH_CHAIN_ID required for custom network: "@ + e@,
                                    Ok(c) => match parse_u64_result(trimmed(c@)) {
                                        Ok(id) => r matches Ok(s) && s.aligned_network == net
                                            && s.aligned_proof_generator_addr@ == addr
                                            && s.eth_rpc_url@ == trimmed(u@) && s.eth_chain_id
                                            == id,
                                        Err(k) => r matches Err(x) && x.0@
                                            == "invalid ETH_CHAIN_ID: "@ + int_parse_error_text(k),
                                    },
                                },
                            },
                        },
                    },
                },
            },
        },
{
    proof {
        reveal_strlit(": ");
        reveal_strlit("invalid ");
        reveal_strlit("ALIGNED_NETWORK");
        reveal_strlit("ALIGNED_NETWORK: ");
        reveal_strlit("ALIGNED_PROOF_GENERATOR_ADDR");
        reveal_strlit("ALIGNED_PROOF_GENERATOR_ADDR: ");
        reveal_strlit("invalid ALIGNED_PROOF_GENERATOR_ADDR: ");
        reveal_strlit("ETH_RPC_URL");
        reveal_strlit("ETH_RPC_URL: ");
    }
    let n = match aligned_network {
        Ok(n) => n,
        Err(e) => {
            return Err(var_error("ALIGNED_NETWORK", e.as_str()));
        },
    };
    let net = match parse_aligned_network(n.as_str()) {
        Ok(net) => net,
        Err(e) => {
            return Err(e);
        },
    };
    let addr = match address_from_var(proof_generator_addr, "ALIGNED_PROOF_GENERATOR_ADDR") {
        Ok(a) => a,
        Err(e) => {
            return Err(e);
        },
    };
    let url = match eth_rpc_url {
        Ok(u) => trim(u.as_str()),
        Err(e) => {
            return Err(var_error("ETH_RPC_URL", e.as_str()));
        },
    };
    let id = match &eth_chain_id {
        Ok(c) => resolve_eth_chain_id(&net, Ok(c.as_str())),
        Err(e) => resolve_eth_chain_id(&net, Err(e.as_str())),
    };
    match id {
        Ok(id) => Ok(
            AlignedSettings {
                aligned_network: net,
                aligned_proof_generator_addr: addr,
                eth_rpc_url: url,
                eth_chain_id: id,
            },
        ),
        Err(e) => Err(e),
    }
}

/// The contract addresses of the Ethereum facade.
#[derive(Debug, Clone, Copy)]
pub struct EthAddresses {
    pub nori_mina_state_settlement_address: [u8; 20],
    pub nori_token_bridge_address: [u8; 20],
    pub batcher_payment_service: [u8; 20],
}

/// The contract addresses of the Ethereum facade from
/// `NORI_ETH_MINA_STATE_SETTLEMENT_ADDRESS`, `NORI_ETH_TOKEN_BRIDGE_ADDRESS`
/// and `ALIGNED_BATCHER_PAYMENT_SERVICE`, checked in that order.
pub fn eth_addresses_from_vars(
    settlement: Result<String, String>,
    token_bridge: Result<String, String>,
    batcher_payment_service: Result<String, String>,
) -> (r: Result<EthAddresses, Error>)
    ensures
        match r {
            Ok(a) => {
                &&& settlement matches Ok(s) && hex_address(trimmed(s@)) == Some(
                    a.nori_mina_state_settlement_address@,
                )
                &&& token_bridge matches Ok(s) && hex_address(trimmed(s@)) == Some(
                    a.nori_token_bridge_address@,
                )
                &&& batcher_payment_service matches Ok(s) && hex_address(trimmed(s@)) == Some(
                    a.batcher_payment_service@,
                )
            },
            Err(_) => !(settlement matches Ok(s) && hex_address(trimmed(s@)) is Some)
                || !(token_bridge matches Ok(s) && hex_address(trimmed(s@)) is Some)
                || !(batcher_payment_service matches Ok(s) && hex_address(trimmed(s@)) is Some),
        },
{
    let a = match address_from_var(settlement, "NORI_ETH_MINA_STATE_SETTLEMENT_ADDRESS") {
        Ok(a) => a,
        Err(e) => {
            return Err(e);
        },
    };
    let b = match address_from_var(token_bridge, "NORI_ETH_TOKEN_BRIDGE_ADDRESS") {
        Ok(b) => b,
        Err(e) => {
            return Err(e);
        },
    };
    let c = match address_from_var(batcher_payment_service, "ALIGNED_BATCHER_PAYMENT_SERVICE") {
        Ok(c) => c,
        Err(e) => {
            return Err(e);
        },
    };
    Ok(
        EthAddresses {
            nori_mina_state_settlement_address: a,
            nori_token_bridge_address: b,
            batcher_payment_service: c,
        },
    )
}

} // verus!
