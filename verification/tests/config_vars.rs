use mina_bridge_core::config::{
    address_from_var, aligned_settings_from_vars, eth_addresses_from_vars, load_var_or,
    mina_network_from_var, var_error, wallet_source_for, wallet_source_from_vars, EnvVars,
    EnvironmentVariables, MinaNetwork, WalletSource,
};
use mina_bridge_core::constants::{ANVIL_CHAIN_ID, HOODI_CHAIN_ID};
use mina_bridge_core::rpcs::aligned::AlignedNetwork;

fn s(x: &str) -> String {
    x.to_string()
}

const ADDR: &str = "0x5FbDB2315678afecb367f032d93F642f64180aa3";

fn addr_bytes() -> [u8; 20] {
    let v = hex::decode(&ADDR[2..]).unwrap();
    let mut a = [0u8; 20];
    a.copy_from_slice(&v);
    a
}

fn full_vars() -> EnvVars {
    EnvVars {
        mina_rpc_url: Ok(s("http://mina")),
        eth_chain: Ok(s("hoodi")),
        state_settlement_eth_addr: None,
        account_validation_eth_addr: Some(s("0xabc")),
        batcher_addr: Ok(s("ws://batcher")),
        batcher_eth_addr: Ok(s("0xbatcher")),
        eth_rpc_url: Ok(s("http://eth")),
        proof_generator_addr: Ok(s("0xgen")),
        keystore_path: None,
        private_key: Some(s("0xkey")),
        nori_token_bridge_eth_address: Ok(s("0xbridge")),
        batcher_fee_estm_type: None,
        batcher_max_fee: None,
    }
}

#[test]
fn environment_variables_complete() {
    let e = EnvironmentVariables::new(full_vars()).unwrap();
    assert_eq!(e.mina_rpc_url, "http://mina");
    assert_eq!(e.eth_network, AlignedNetwork::Hoodi);
    assert_eq!(e.account_validation_addr, Some(s("0xabc")));
    assert_eq!(e.batcher_fee_estimation_type, "0");
    assert_eq!(e.private_key, Some(s("0xkey")));
    assert_eq!(e.keystore_path, None);
}

#[test]
fn environment_variables_errors() {
    let mut v = full_vars();
    v.mina_rpc_url = Err(s("environment variable not found"));
    assert_eq!(
        EnvironmentVariables::new(v).unwrap_err(),
        "Couldn't get MINA_RPC_URL env. variable: environment variable not found"
    );
    let mut v = full_vars();
    v.eth_chain = Ok(s("mainnet"));
    assert_eq!(
        EnvironmentVariables::new(v).unwrap_err(),
        "Unrecognized chain, possible values for ETH_CHAIN are \"devnet\" and \"hoodi\"."
    );
    let mut v = full_vars();
    v.eth_chain = Ok(s("sepolia"));
    assert_eq!(
        EnvironmentVariables::new(v).unwrap_err(),
        "Unrecognized chain, possible values for ETH_CHAIN are \"devnet\" and \"hoodi\"."
    );
    let mut v = full_vars();
    v.keystore_path = Some(s("/k"));
    assert_eq!(
        EnvironmentVariables::new(v).unwrap_err(),
        "Both keystore and private key env. variables are defined. Choose only one."
    );
    let mut v = full_vars();
    v.private_key = None;
    assert_eq!(
        EnvironmentVariables::new(v).unwrap_err(),
        "Neither keystore nor private key env. variables are defined."
    );
    let mut v = full_vars();
    v.nori_token_bridge_eth_address = Err(s("nope"));
    assert_eq!(
        EnvironmentVariables::new(v).unwrap_err(),
        "Couldn't get NORI_TOKEN_BRIDGE_ETH_ADDRESS env. variable: nope"
    );
}

#[test]
fn load_var_or_defaults_only_on_devnet() {
    assert_eq!(load_var_or(Ok(s("v")), "K", "d", &AlignedNetwork::Hoodi), Ok(s("v")));
    assert_eq!(load_var_or(Err(s("e")), "K", "d", &AlignedNetwork::Devnet), Ok(s("d")));
    assert_eq!(
        load_var_or(Err(s("e")), "K", "d", &AlignedNetwork::Sepolia),
        Err(s("Chain selected is not Devnet but couldn't read K: e"))
    );
}

#[test]
fn wallet_sources() {
    assert!(matches!(
        wallet_source_from_vars(Some(s("/k")), None),
        Ok(WalletSource::Keystore(p)) if p == "/k"
    ));
    // the first key of the local Anvil chain
    let anvil = "0xac0974bec39a17e36ba4a6b4d238ff944bacb478cbed5efcae784d7bf4f2ff80";
    let mut anvil_bytes = [0u8; 32];
    anvil_bytes[..4].copy_from_slice(&[0xac, 0x09, 0x74, 0xbe]);
    assert!(matches!(
        wallet_source_from_vars(None, Some(s(anvil))),
        Ok(WalletSource::PrivateKey(k)) if k[..4] == anvil_bytes[..4] && k[31] == 0x80
    ));
    assert!(matches!(
        wallet_source_for(None, Some(&anvil[2..])),
        Ok(WalletSource::PrivateKey(k)) if k[0] == 0xac
    ));
    assert_eq!(
        wallet_source_from_vars(None, Some(s("0x1"))).unwrap_err().0,
        "invalid ETH_PRIVATE_KEY"
    );
    assert_eq!(wallet_source_for(None, Some("0x1")).unwrap_err(), "Failed to get signer");
    // zero and the group order are not secret keys
    let zero = "0".repeat(64);
    assert_eq!(wallet_source_for(None, Some(&zero)).unwrap_err(), "Failed to get signer");
    let order = "FFFFFFFFFFFFFFFFFFFFFFFFFFFFFFFEBAAEDCE6AF48A03BBFD25E8CD0364141";
    assert_eq!(wallet_source_for(None, Some(order)).unwrap_err(), "Failed to get signer");
    let below_order = "FFFFFFFFFFFFFFFFFFFFFFFFFFFFFFFEBAAEDCE6AF48A03BBFD25E8CD0364140";
    assert!(wallet_source_for(None, Some(below_order)).is_ok());
    assert_eq!(
        wallet_source_from_vars(Some(s("/k")), Some(s("0x1"))).unwrap_err().0,
        "Both ETH_KEYSTORE_PATH and ETH_PRIVATE_KEY are set. Choose only one."
    );
    assert_eq!(
        wallet_source_from_vars(None, None).unwrap_err().0,
        "Neither ETH_KEYSTORE_PATH nor ETH_PRIVATE_KEY is set."
    );
    assert_eq!(
        wallet_source_for(None, None).unwrap_err(),
        "couldn't find KEYSTORE_PATH or PRIVATE_KEY."
    );
    assert_eq!(
        wallet_source_for(Some("/k"), Some("0x1")).unwrap_err(),
        "Both keystore and private key env. variables are defined. Choose only one."
    );
    assert!(matches!(wallet_source_for(Some("/k"), None), Ok(WalletSource::Keystore(p)) if p == "/k"));
}

#[test]
fn mina_network_from_variable() {
    assert_eq!(mina_network_from_var(Ok(s(" devnet\n"))).unwrap(), MinaNetwork::Devnet);
    assert!(MinaNetwork::Devnet.is_devnet());
    assert!(!MinaNetwork::Mainnet.is_devnet());
    assert_eq!(
        mina_network_from_var(Ok(s(" berkeley "))).unwrap_err().0,
        "invalid MINA_NETWORK: 'berkeley', expected 'mainnet' or 'devnet'"
    );
    assert_eq!(mina_network_from_var(Err(s("not found"))).unwrap_err().0, "MINA_NETWORK: not found");
    assert_eq!(var_error("X", "y").0, "X: y");
}

#[test]
fn addresses_parse_as_hex() {
    assert_eq!(address_from_var(Ok(format!("  {ADDR} ")), "A").unwrap(), addr_bytes());
    assert_eq!(
        address_from_var(Ok(s("5fbdb2315678afecb367f032d93f642f64180aa3")), "A").unwrap(),
        addr_bytes()
    );
    assert!(address_from_var(Ok(s("0x1234")), "A").unwrap_err().0.starts_with("invalid A: "));
    assert_eq!(address_from_var(Err(s("gone")), "A").unwrap_err().0, "A: gone");
    let a = eth_addresses_from_vars(Ok(s(ADDR)), Ok(s(ADDR)), Ok(s(ADDR))).unwrap();
    assert_eq!(a.batcher_payment_service, addr_bytes());
    assert!(eth_addresses_from_vars(Ok(s(ADDR)), Ok(s("zz")), Ok(s(ADDR))).is_err());
}

#[test]
fn aligned_settings_resolve_chain() {
    let st = aligned_settings_from_vars(Ok(s("hoodi")), Ok(s(ADDR)), Ok(s(" http://eth ")), Err(s("unset")))
        .unwrap();
    assert_eq!(st.aligned_network, AlignedNetwork::Hoodi);
    assert_eq!(st.eth_chain_id, HOODI_CHAIN_ID);
    assert_eq!(st.eth_rpc_url, "http://eth");
    assert_eq!(st.aligned_proof_generator_addr, addr_bytes());
    let st = aligned_settings_from_vars(Ok(s("devnet")), Ok(s(ADDR)), Ok(s("u")), Err(s("unset"))).unwrap();
    assert_eq!(st.eth_chain_id, ANVIL_CHAIN_ID);
    assert_eq!(
        aligned_settings_from_vars(Ok(s("moon")), Ok(s(ADDR)), Ok(s("u")), Err(s("unset")))
            .unwrap_err()
            .0,
        "invalid ALIGNED_NETWORK: 'moon', expected one of: devnet, holesky, holesky_stage, hoodi, mainnet, mainnet_stage, sepolia"
    );
    assert_eq!(
        aligned_settings_from_vars(Err(s("unset")), Ok(s(ADDR)), Ok(s("u")), Err(s("unset")))
            .unwrap_err()
            .0,
        "ALIGNED_NETWORK: unset"
    );
    assert_eq!(
        aligned_settings_from_vars(Ok(s("devnet")), Ok(s(ADDR)), Err(s("unset")), Err(s("unset")))
            .unwrap_err()
            .0,
        "ETH_RPC_URL: unset"
    );
}
