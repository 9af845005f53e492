use mina_bridge_core::eth::{
    aligned_call_args, check_chain_state_hashes, check_receipt_status, confirm_stored_chain,
    flatten_merkle_path, same_strings, validate_gas_params, validate_gas_params_for_examples,
    AlignedVerificationData, MinaAccountValidationExampleConstructorArgs,
    MinaStateSettlementExampleConstructorArgs, TransactionReceipt, VerificationDataCommitment,
    MAX_GAS_LIMIT_VALUE,
};
use mina_bridge_core::evm::{prefixed_hex, selector};
use mina_bridge_core::rpcs::eth_errors::{
    classify_contract_call_error, classify_error_payload, classify_receipt_failure,
    classify_transport_error, decode_revert, ContractCallError, ContractRevert, EthError,
    PendingTransactionError, RpcErrorPayload, TransportError,
};
use sha3::{Digest, Keccak256};

fn s(x: &str) -> String {
    x.to_string()
}

fn keccak_selector(sig: &str) -> [u8; 4] {
    let h = Keccak256::digest(sig.as_bytes());
    [h[0], h[1], h[2], h[3]]
}

#[test]
fn selectors_are_keccak_prefixes() {
    assert_eq!(selector("Error(string)"), [0x08, 0xc3, 0x79, 0xa0]);
    assert_eq!(selector("ZeroAddress()"), keccak_selector("ZeroAddress()"));
    assert_eq!(prefixed_hex(&[0x00, 0xab, 0x10]), "0x00ab10");
}

#[test]
fn gas_policy_limits() {
    // 1000 gas + 10% = 1100
    assert_eq!(validate_gas_params(1_000_000_000, 1000), Ok(1100));
    assert_eq!(
        validate_gas_params(301_000_000_000, 1000),
        Err(EthError::GasSafetyLimit(s("gas price too high: 301 gwei (max: 300 gwei)")))
    );
    assert_eq!(
        validate_gas_params(1, 1_000_000),
        Err(EthError::GasSafetyLimit(s("estimated gas too high: 1100000 (max: 1000000)")))
    );
    assert_eq!(
        validate_gas_params(1, u64::MAX),
        Err(EthError::GasSafetyLimit(s("gas margin calculation overflow")))
    );
    let g = validate_gas_params(0, 909_090).unwrap();
    assert!(g >= 909_090 && g <= MAX_GAS_LIMIT_VALUE);
    assert!(validate_gas_params(1, 1_000_000).unwrap_err().is_retryable());
    assert_eq!(
        validate_gas_params_for_examples(400_000_000_000, 1),
        Err(s("Gas price too high: 400 gwei (max: 300 gwei)"))
    );
    assert_eq!(validate_gas_params_for_examples(0, 100), Ok(110));
}

#[test]
fn receipts_failures_are_not_retryable() {
    let ok = TransactionReceipt { transaction_hash: [1; 32], status: true, gas_used: 5 };
    assert_eq!(check_receipt_status(ok, 10), Ok(ok));
    let failed = TransactionReceipt { transaction_hash: [1; 32], status: false, gas_used: 10 };
    let e = check_receipt_status(failed, 10).unwrap_err();
    assert_eq!(e, EthError::OutOfGas(s("execution consumed all gas (10)")));
    assert!(!e.is_retryable());
    let e = classify_receipt_failure(3, 10);
    assert_eq!(
        e,
        EthError::Reverted(ContractRevert::Unknown(s(
            "receipt failed, no revert data (simulate with eth_call before send)"
        )))
    );
    assert!(!e.is_retryable());
}

#[test]
fn retryable_kinds() {
    assert!(EthError::RpcUnreachable(s("x")).is_retryable());
    assert!(EthError::NonceCollision(s("x")).is_retryable());
    assert!(EthError::UnexpectedRpcResponse(s("x")).is_retryable());
    assert!(EthError::GasSafetyLimit(s("x")).is_retryable());
    assert!(!EthError::AbiError(s("x")).is_retryable());
    assert!(!EthError::InsufficientFunds(s("x")).is_retryable());
    assert_eq!(EthError::AbiError(s("bad")).to_string(), "abi error: bad");
    assert_eq!(
        EthError::Reverted(ContractRevert::ZeroAddress).to_string(),
        "reverted: ZeroAddress"
    );
}

#[test]
fn reverts_decode_custom_errors_and_reasons() {
    let mut data = keccak_selector("TipStateIsWrong(bytes32,bytes32)").to_vec();
    data.extend_from_slice(&[0u8; 64]);
    assert_eq!(decode_revert(&data), ContractRevert::TipStateWrong);
    // Too short for its two arguments: not that error.
    let short = keccak_selector("TipStateIsWrong(bytes32,bytes32)").to_vec();
    assert_eq!(decode_revert(&short), ContractRevert::Unknown(hex::encode(&short)));
    let zero = keccak_selector("ZeroAddress()").to_vec();
    assert_eq!(decode_revert(&zero), ContractRevert::ZeroAddress);

    // Error(string) with reason "Invalid Ledger".
    let reason = "Invalid Ledger";
    let mut enc = vec![0x08, 0xc3, 0x79, 0xa0];
    let mut word = [0u8; 32];
    word[31] = 0x20;
    enc.extend_from_slice(&word);
    let mut len = [0u8; 32];
    len[31] = reason.len() as u8;
    enc.extend_from_slice(&len);
    let mut body = [0u8; 32];
    body[..reason.len()].copy_from_slice(reason.as_bytes());
    enc.extend_from_slice(&body);
    assert_eq!(decode_revert(&enc), ContractRevert::InvalidLedger);
}

#[test]
fn payloads_classify_by_code_and_message() {
    let p = RpcErrorPayload { code: -32000, message: s("Nonce too low"), data: None };
    assert_eq!(classify_error_payload(p), EthError::NonceCollision(s("Nonce too low")));
    let p = RpcErrorPayload { code: -32000, message: s("insufficient funds for gas"), data: None };
    assert_eq!(classify_error_payload(p), EthError::InsufficientFunds(s("insufficient funds for gas")));
    let p = RpcErrorPayload { code: -32000, message: s("intrinsic gas too low"), data: None };
    assert_eq!(classify_error_payload(p), EthError::OutOfGas(s("intrinsic gas too low")));
    let p = RpcErrorPayload { code: -32601, message: s("method not found"), data: None };
    assert_eq!(
        classify_error_payload(p),
        EthError::UnexpectedRpcResponse(s("JSON-RPC error -32601: method not found"))
    );
    let zero = hex::encode(keccak_selector("ZeroAddress()"));
    let p = RpcErrorPayload {
        code: 3,
        message: s("execution reverted"),
        data: Some(format!("\"0x{zero}\"")),
    };
    assert_eq!(classify_error_payload(p), EthError::Reverted(ContractRevert::ZeroAddress));
}

#[test]
fn transport_and_call_errors() {
    assert_eq!(
        classify_transport_error(TransportError::Transport(s("connection refused"))),
        EthError::RpcUnreachable(s("connection refused"))
    );
    assert_eq!(
        classify_transport_error(TransportError::NullResp),
        EthError::UnexpectedRpcResponse(s("null response"))
    );
    assert_eq!(
        classify_contract_call_error(ContractCallError::ZeroData(s("tip"), s("empty"))),
        EthError::Reverted(ContractRevert::Unknown(s("zero data from tip: empty")))
    );
    assert_eq!(
        classify_contract_call_error(ContractCallError::PendingTransactionError(
            PendingTransactionError::TxWatcher(s("30s"))
        )),
        EthError::UnexpectedRpcResponse(s("tx watcher timeout: 30s"))
    );
    assert_eq!(
        classify_contract_call_error(ContractCallError::AbiError(s("bad abi"))),
        EthError::AbiError(s("bad abi"))
    );
}

#[test]
fn constructor_args_need_checksummed_address() {
    let a = MinaAccountValidationExampleConstructorArgs::new("0x5FbDB2315678afecb367f032d93F642f64180aa3")
        .unwrap();
    assert_eq!(hex::encode(a.aligned_service_addr()), "5fbdb2315678afecb367f032d93f642f64180aa3");
    assert!(MinaAccountValidationExampleConstructorArgs::new("0x5fbdb2315678afecb367f032d93F642f64180aa3").is_err());
    let r = MinaStateSettlementExampleConstructorArgs::new(
        "0x5FbDB2315678afecb367f032d93F642f64180aa3",
        vec![7u8; 31],
    );
    assert_eq!(r.unwrap_err(), "Could not convert root state hash into fixed array");
    let r = MinaStateSettlementExampleConstructorArgs::new(
        "0x5FbDB2315678afecb367f032d93F642f64180aa3",
        vec![7u8; 32],
    )
    .unwrap();
    assert_eq!(r.root_state_hash(), [7u8; 32]);
}

#[test]
fn call_args_flatten_merkle_path() {
    assert_eq!(flatten_merkle_path(&vec![[1u8; 32], [2u8; 32]]).len(), 64);
    let v = AlignedVerificationData {
        verification_data_commitment: VerificationDataCommitment {
            proof_commitment: [1; 32],
            pub_input_commitment: [2; 32],
            proving_system_aux_data_commitment: [3; 32],
            proof_generator_addr: [4; 20],
        },
        batch_merkle_root: [5; 32],
        merkle_path: vec![[6; 32], [7; 32]],
        index_in_batch: 3,
    };
    let a = aligned_call_args(v, vec![9, 9], [8; 20]);
    assert_eq!(a.proof_commitment, [1; 32]);
    assert_eq!(a.proving_system_aux_data_commitment, [3; 32]);
    assert_eq!(a.merkle_proof[..32], [6u8; 32]);
    assert_eq!(a.merkle_proof[32..], [7u8; 32]);
    assert_eq!(a.verification_data_batch_index, 3);
    assert_eq!(a.batcher_payment_service, [8; 20]);
}

#[test]
fn stored_chain_checks() {
    let hs: Vec<String> = (0..16).map(|i| format!("h{i}")).collect();
    assert_eq!(check_chain_state_hashes(hs.clone()), Ok(hs.clone()));
    assert_eq!(
        check_chain_state_hashes(vec![s("a")]),
        Err(EthError::SerializationError(s("wrong number of state hashes from contract")))
    );
    assert!(same_strings(&hs, &hs.clone()));
    assert_eq!(confirm_stored_chain(&hs, &hs), Ok(s("h15")));
    let mut other = hs.clone();
    other[3] = s("x");
    assert!(!same_strings(&hs, &other));
    assert_eq!(
        confirm_stored_chain(&hs, &other),
        Err(s("Stored network state hashes don't match the candidate's"))
    );
    assert_eq!(confirm_stored_chain(&vec![], &vec![]), Err(s("Failed to get tip state hash")));
}

#[test]
fn rate_limits_are_retryable() {
    let p = RpcErrorPayload { code: 429, message: s("Too Many Requests"), data: None };
    assert_eq!(classify_error_payload(p), EthError::RpcUnreachable(s("rate limited: Too Many Requests")));
    let p = RpcErrorPayload { code: -32016, message: s("over rate limit"), data: None };
    assert!(classify_error_payload(p).is_retryable());
    let p = RpcErrorPayload { code: 1, message: s("header not found"), data: None };
    assert_eq!(classify_error_payload(p), EthError::RpcUnreachable(s("rate limited: header not found")));
}

#[test]
fn contract_addresses_parse_hex() {
    let (c, b) = mina_bridge_core::eth::contract_addresses(
        "0x5FbDB2315678afecb367f032d93F642f64180aa3",
        "000000000000000000000000000000000000dEaD",
    )
    .unwrap();
    assert_eq!(hex::encode(c), "5fbdb2315678afecb367f032d93f642f64180aa3");
    assert_eq!(b[19], 0xad);
    assert!(mina_bridge_core::eth::contract_addresses("0x12", "0x00").is_err());
}
