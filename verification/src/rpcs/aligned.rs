//! Aligned network selection and the batcher fee configuration of the
//! Aligned RPC facade.
use vstd::prelude::*;

use crate::constants::{
    ANVIL_CHAIN_ID, HOLESKY_CHAIN_ID, HOODI_CHAIN_ID, MAINNET_CHAIN_ID, SEPOLIA_CHAIN_ID,
};
use crate::rpcs::error::{labelled, Error};
use crate::text::{int_parse_error_text, parse_u64, parse_u64_result, str_eq, trim, trimmed};
use vstd::string::StringExecFns;

verus! {

/// The Aligned deployment a proof is submitted to.
#[derive(Debug, Clone, PartialEq, Eq)]
pub enum AlignedNetwork {
    Devnet,
    Holesky,
    HoleskyStage,
    Mainnet,
    MainnetStage,
    Hoodi,
    Sepolia,
    /// A deployment described by its batcher payment service and service
    /// manager addresses.
    Custom(String, String),
}

/// The network an `ALIGNED_NETWORK` value names, after trimming whitespace.
pub open spec fn network_named(s: Seq<char>) -> Option<AlignedNetwork> {
    let t = trimmed(s);
    if t == "devnet"@ {
        Some(AlignedNetwork::Devnet)
    } else if t == "holesky"@ {
        Some(AlignedNetwork::Holesky)
    } else if t == "holesky_stage"@ {
        Some(AlignedNetwork::HoleskyStage)
    } else if t == "hoodi"@ {
        Some(AlignedNetwork::Hoodi)
    } else if t == "mainnet"@ {
        Some(AlignedNetwork::Mainnet)
    } else if t == "mainnet_stage"@ {
        Some(AlignedNetwork::MainnetStage)
    } else if t == "sepolia"@ {
        Some(AlignedNetwork::Sepolia)
    } else {
        None
    }
}

/// Parses an `ALIGNED_NETWORK` value.
pub fn parse_aligned_network(s: &str) -> (r: Result<AlignedNetwork, Error>)
    ensures
        network_named(s@) matches Some(n) ==> r == Ok::<AlignedNetwork, Error>(n),
        network_named(s@) is None ==> (r matches Err(e) && e.0@ == "invalid ALIGNED_NETWORK: '"@
            + trimmed(s@)
            + "', expected one of: devnet, holesky, holesky_stage, hoodi, mainnet, mainnet_stage, sepolia"@),
{
    let t = trim(s);
    let ts = t.as_str();
    if str_eq(ts, "devnet") {
        Ok(AlignedNetwork::Devnet)
    } else if str_eq(ts, "holesky") {
        Ok(AlignedNetwork::Holesky)
    } else if str_eq(ts, "holesky_stage") {
        Ok(AlignedNetwork::HoleskyStage)
    } else if str_eq(ts, "hoodi") {
        Ok(AlignedNetwork::Hoodi)
    } else if str_eq(ts, "mainnet") {
        Ok(AlignedNetwork::Mainnet)
    } else if str_eq(ts, "mainnet_stage") {
        Ok(AlignedNetwork::MainnetStage)
    } else if str_eq(ts, "sepolia") {
        Ok(AlignedNetwork::Sepolia)
    } else {
        let mut m = labelled("invalid ALIGNED_NETWORK: '", ts);
        m.append(
            "', expected one of: devnet, holesky, holesky_stage, hoodi, mainnet, mainnet_stage, sepolia",
        );
        Err(Error(m))
    }
}

/// The Ethereum chain of a known Aligned network.
pub open spec fn known_chain_id(n: AlignedNetwork) -> Option<u64> {
    match n {
        AlignedNetwork::Devnet => Some(ANVIL_CHAIN_ID),
        AlignedNetwork::Holesky => Some(HOLESKY_CHAIN_ID),
        AlignedNetwork::HoleskyStage => Some(HOLESKY_CHAIN_ID),
        AlignedNetwork::Hoodi => Some(HOODI_CHAIN_ID),
        AlignedNetwork::Mainnet => Some(MAINNET_CHAIN_ID),
        AlignedNetwork::MainnetStage => Some(MAINNET_CHAIN_ID),
        AlignedNetwork::Sepolia => Some(SEPOLIA_CHAIN_ID),
        AlignedNetwork::Custom(_, _) => None,
    }
}

/// Returns the Ethereum chain ID of a known Aligned network; a custom
/// network has none and must be given one explicitly.
pub fn chain_id_for_known_network(network: &AlignedNetwork) -> (r: Option<u64>)
    ensures
        r == known_chain_id(*network),
{
    match network {
        AlignedNetwork::Devnet => Some(ANVIL_CHAIN_ID),
        AlignedNetwork::Holesky | AlignedNetwork::HoleskyStage => Some(HOLESKY_CHAIN_ID),
        AlignedNetwork::Hoodi => Some(HOODI_CHAIN_ID),
        AlignedNetwork::Mainnet | AlignedNetwork::MainnetStage => Some(MAINNET_CHAIN_ID),
        AlignedNetwork::Sepolia => Some(SEPOLIA_CHAIN_ID),
        AlignedNetwork::Custom(..) => None,
    }
}

/// Resolves the Ethereum chain ID of the Aligned facade: the known chain of
/// the network, or for a custom network the `ETH_CHAIN_ID` variable (given
/// as its value, or as the text of the error reading it).
pub fn resolve_eth_chain_id(network: &AlignedNetwork, eth_chain_id: Result<&str, &str>) -> (r:
    Result<u64, Error>)
    ensures
        known_chain_id(*network) matches Some(id) ==> r == Ok::<u64, Error>(id),
        known_chain_id(*network) is None ==> match eth_chain_id {
            Err(v) => r matches Err(e) && e.0@ == "ETH_CHAIN_ID required for custom network: "@
                + v@,
            Ok(s) => match parse_u64_result(trimmed(s@)) {
                Ok(id) => r == Ok::<u64, Error>(id),
                Err(k) => r matches Err(e) && e.0@ == "invalid ETH_CHAIN_ID: "@
                    + int_parse_error_text(k),
            },
        },
{
    match chain_id_for_known_network(network) {
        Some(id) => Ok(id),
        None => match eth_chain_id {
            Err(v) => Err(Error(labelled("ETH_CHAIN_ID required for custom network: ", v))),
            Ok(s) => {
                let t = trim(s);
                match parse_u64(t.as_str()) {
                    Ok(id) => Ok(id),
                    Err(k) => {
                        let detail = k.to_string();
                        Err(Error(labelled("invalid ETH_CHAIN_ID: ", detail.as_str())))
                    },
                }
            },
        },
    }
}


/// Every network `ALIGNED_NETWORK` can name has a known Ethereum chain: only
/// a custom network, which parsing never yields, needs `ETH_CHAIN_ID`.
pub proof fn lemma_named_networks_have_chain_ids(s: Seq<char>)
    requires
        network_named(s) is Some,
    ensures
        known_chain_id(network_named(s)->0) is Some,
{
}

} // verus!
