use mina_bridge_core::aligned::{
    after_poll, aligned_fee_source, aligned_max_fee, batch_identifier, batcher_fee_fault, batcher_max_fee, custom_max_fee,
    inclusion_check_result, next_poll, prepare_submission, status_after_inclusion_check,
    status_from_batch_state, submission_chain_id, get_submission_mode_from_env, validate_cbor_size,
    AfterPoll, BatchVerificationStatus, FeeConfigFault, MaxFee, MaxFeeSource, MinaProof, PollAction, PollOutcome,
    PollingConfig, ProvingSystemId, SubmissionMode, VerificationData, CBOR_OVERHEAD_BYTES,
    MAX_PROOF_SIZE,
};
use mina_bridge_core::constants::{ANVIL_CHAIN_ID, HOLESKY_CHAIN_ID, HOODI_CHAIN_ID, SEPOLIA_CHAIN_ID};
use mina_bridge_core::rpcs::aligned::{
    chain_id_for_known_network, parse_aligned_network, resolve_eth_chain_id, AlignedNetwork,
};
use mina_bridge_core::rpcs::errors::{
    classify_generic_submit_error, classify_submit_error, classify_verification_error,
    AlignedError, SubmitError, VerificationError,
};
use sha3::{Digest, Keccak256};

fn s(x: &str) -> String {
    x.to_string()
}

#[test]
fn submission_modes() {
    assert_eq!(SubmissionMode::parse("Submit_With_Polling"), Ok(SubmissionMode::SubmitWithPolling));
    assert_eq!(SubmissionMode::parse("POLLING"), Ok(SubmissionMode::SubmitWithPolling));
    assert_eq!(SubmissionMode::parse(""), Ok(SubmissionMode::SubmitAndWait));
    assert_eq!(SubmissionMode::parse("default"), Ok(SubmissionMode::SubmitAndWait));
    assert_eq!(
        SubmissionMode::parse("fast"),
        Err(s("Unknown submission mode: 'fast'. Valid values: 'submit_and_wait', 'submit_with_polling'"))
    );
    assert_eq!("polling".parse::<SubmissionMode>(), Ok(SubmissionMode::SubmitWithPolling));
    assert_eq!(SubmissionMode::default(), SubmissionMode::SubmitAndWait);
    assert_eq!(get_submission_mode_from_env(None), SubmissionMode::SubmitAndWait);
    assert_eq!(get_submission_mode_from_env(Some("bogus")), SubmissionMode::SubmitAndWait);
    assert_eq!(get_submission_mode_from_env(Some("polling")), SubmissionMode::SubmitWithPolling);
}

#[test]
fn polling_configuration() {
    let d = PollingConfig::default();
    assert_eq!((d.poll_interval_secs, d.timeout_secs), (10, 600));
    assert_eq!(PollingConfig::from_env(None, None), d);
    let c = PollingConfig::from_env(Some("5"), Some("x"));
    assert_eq!((c.poll_interval_secs, c.timeout_secs), (5, 600));
}

#[test]
fn polling_loop_times_out_at_timeout() {
    let c = PollingConfig { poll_interval_secs: 2, timeout_secs: 3 };
    assert_eq!(next_poll(&c, 0, 0), PollAction::Poll { attempt: 1 });
    assert_eq!(next_poll(&c, 2_999_999_999, 4), PollAction::Poll { attempt: 5 });
    assert_eq!(next_poll(&c, 3_000_000_000, 5), PollAction::TimedOut { polls: 5 });
    assert_eq!(after_poll(&c, &PollOutcome::Verified), AfterPoll::Done);
    assert_eq!(after_poll(&c, &PollOutcome::NotYet), AfterPoll::Sleep { secs: 2 });
    assert_eq!(after_poll(&c, &PollOutcome::Failed(s("x"))), AfterPoll::Sleep { secs: 2 });
}

#[test]
fn verification_data_of_proofs() {
    let p = prepare_submission(MinaProof::State((vec![1, 2], vec![3])), [9; 20]);
    assert_eq!(p.verification_data.proving_system, ProvingSystemId::Mina);
    assert_eq!(p.verification_data.proof, vec![1, 2]);
    assert_eq!(p.verification_data.pub_input, Some(vec![3]));
    assert_eq!(p.verification_data.verification_key, Some(vec![]));
    assert_eq!(p.verification_data.vm_program_code, None);
    assert_eq!(p.proof_name, "Mina Proof of State");
    assert_eq!(p.file_name, "mina_state");
    let p = prepare_submission(MinaProof::Account((vec![], vec![])), [0; 20]);
    assert_eq!(p.verification_data.proving_system, ProvingSystemId::MinaAccount);
    assert_eq!(p.proof_name, "Mina Proof of Account");
}

fn data(proof_len: usize) -> VerificationData {
    VerificationData {
        proving_system: ProvingSystemId::Mina,
        proof: vec![0; proof_len],
        pub_input: Some(vec![0; 10]),
        verification_key: None,
        vm_program_code: None,
        proof_generator_addr: [0; 20],
    }
}

#[test]
fn cbor_size_limit() {
    assert_eq!(validate_cbor_size(&data(100)), Ok(100 + 10 + CBOR_OVERHEAD_BYTES));
    let at_limit = MAX_PROOF_SIZE - 10 - CBOR_OVERHEAD_BYTES;
    assert_eq!(validate_cbor_size(&data(at_limit)), Ok(MAX_PROOF_SIZE));
    assert_eq!(
        validate_cbor_size(&data(at_limit + 1)),
        Err(AlignedError::PayloadTooLarge(s("estimated 4194305 bytes exceeds max 4194304 bytes")))
    );
}

#[test]
fn fee_sources() {
    assert_eq!(aligned_fee_source(Some("0")).unwrap(), MaxFeeSource::EstimateDefault);
    assert_eq!(aligned_fee_source(None).unwrap(), MaxFeeSource::EstimateDefault);
    assert_eq!(
        aligned_fee_source(Some("3")).unwrap_err().0,
        "invalid ALIGNED_BATCHER_FEE_TYPE: '3', expected '0', '1', or '2'"
    );
}

#[test]
fn batcher_max_fee_choices() {
    assert_eq!(batcher_max_fee(None, None), MaxFee::EstimateDefault);
    assert_eq!(batcher_max_fee(Some("1"), None), MaxFee::EstimateInstant);
    assert_eq!(batcher_max_fee(Some("2"), Some("0x10")), MaxFee::Fixed([16, 0, 0, 0]));
    assert_eq!(
        batcher_max_fee(Some("2"), Some("10000000000000000")),
        MaxFee::Fixed([0, 1, 0, 0])
    );
    assert_eq!(batcher_max_fee(Some("2"), Some("FfF")), MaxFee::Fixed([4095, 0, 0, 0]));
    let longest = "f".repeat(64);
    assert_eq!(batcher_max_fee(Some("2"), Some(&longest)), MaxFee::Fixed([u64::MAX; 4]));
}

#[test]
fn batcher_fee_faults() {
    assert_eq!(batcher_fee_fault(None, None), None);
    assert_eq!(batcher_fee_fault(Some("2"), Some("0x10")), None);
    assert_eq!(batcher_fee_fault(Some("2"), None), Some(FeeConfigFault::ZeroCustomFee));
    assert_eq!(batcher_fee_fault(Some("7"), Some("1")), Some(FeeConfigFault::UnknownFeeType));
    // the maximum fee is parsed whatever the fee type
    assert_eq!(batcher_fee_fault(Some("0"), Some("zz")), Some(FeeConfigFault::UnparsableMaxFee));
    assert_eq!(batcher_fee_fault(Some("9"), Some("0X10")), Some(FeeConfigFault::UnparsableMaxFee));
    let too_long = "1".repeat(65);
    assert_eq!(
        batcher_fee_fault(Some("0"), Some(&too_long)),
        Some(FeeConfigFault::UnparsableMaxFee)
    );
}

#[test]
fn custom_max_fee_outcomes() {
    assert_eq!(custom_max_fee(Ok(s("0x2a"))).unwrap(), [42, 0, 0, 0]);
    assert_eq!(
        custom_max_fee(Err(s("environment variable not found"))).unwrap_err().0,
        "ALIGNED_BATCHER_MAX_FEE: environment variable not found"
    );
    assert!(custom_max_fee(Ok(s("0xg1")))
        .unwrap_err()
        .0
        .starts_with("invalid ALIGNED_BATCHER_MAX_FEE: "));
    assert_eq!(
        custom_max_fee(Ok(s("0x0"))).unwrap_err().0,
        "ALIGNED_BATCHER_MAX_FEE cannot be 0 when ALIGNED_BATCHER_FEE_TYPE is 2"
    );
    assert_eq!(aligned_max_fee(Some("2"), Ok(s("5"))).unwrap(), MaxFee::Fixed([5, 0, 0, 0]));
    // no fee is read for an estimate
    assert_eq!(aligned_max_fee(Some("1"), Err(s("unset"))).unwrap(), MaxFee::EstimateInstant);
    assert_eq!(aligned_max_fee(None, Ok(s("zz"))).unwrap(), MaxFee::EstimateDefault);
    assert_eq!(
        aligned_max_fee(Some("x"), Ok(s("5"))).unwrap_err().0,
        "invalid ALIGNED_BATCHER_FEE_TYPE: 'x', expected '0', '1', or '2'"
    );
}

#[test]
fn networks_and_chains() {
    assert_eq!(parse_aligned_network(" hoodi ").unwrap(), AlignedNetwork::Hoodi);
    assert_eq!(parse_aligned_network("holesky_stage").unwrap(), AlignedNetwork::HoleskyStage);
    assert_eq!(
        parse_aligned_network("x").unwrap_err().0,
        "invalid ALIGNED_NETWORK: 'x', expected one of: devnet, holesky, holesky_stage, hoodi, mainnet, mainnet_stage, sepolia"
    );
    for n in ["devnet", "holesky", "holesky_stage", "hoodi", "mainnet", "mainnet_stage", "sepolia"] {
        let net = parse_aligned_network(n).unwrap();
        assert!(chain_id_for_known_network(&net).is_some());
    }
    assert_eq!(chain_id_for_known_network(&AlignedNetwork::HoleskyStage), Some(HOLESKY_CHAIN_ID));
    let custom = AlignedNetwork::Custom(s("0x1"), s("0x2"));
    assert_eq!(chain_id_for_known_network(&custom), None);
    assert_eq!(resolve_eth_chain_id(&custom, Ok(" 42 ")).unwrap(), 42);
    assert_eq!(
        resolve_eth_chain_id(&custom, Err("unset")).unwrap_err().0,
        "ETH_CHAIN_ID required for custom network: unset"
    );
    assert_eq!(
        resolve_eth_chain_id(&custom, Ok("4x")).unwrap_err().0,
        "invalid ETH_CHAIN_ID: invalid digit found in string"
    );
    assert_eq!(resolve_eth_chain_id(&AlignedNetwork::Devnet, Err("unset")).unwrap(), ANVIL_CHAIN_ID);
    assert_eq!(submission_chain_id(&AlignedNetwork::Sepolia), SEPOLIA_CHAIN_ID);
    assert_eq!(submission_chain_id(&AlignedNetwork::Hoodi), HOODI_CHAIN_ID);
    assert_eq!(submission_chain_id(&AlignedNetwork::Mainnet), ANVIL_CHAIN_ID);
}

#[test]
fn batch_statuses() {
    assert_eq!(status_after_inclusion_check(true), Some(BatchVerificationStatus::Verified));
    assert_eq!(status_after_inclusion_check(false), None);
    assert_eq!(status_from_batch_state(true), BatchVerificationStatus::Failed);
    assert_eq!(status_from_batch_state(false), BatchVerificationStatus::Pending);
    assert_eq!(
        inclusion_check_result(None),
        Err(AlignedError::RpcUnreachable(s("is_proof_verified timed out")))
    );
    assert_eq!(inclusion_check_result(Some(Ok(true))), Ok(true));
    assert_eq!(
        inclusion_check_result(Some(Err(VerificationError::EthereumCallError(s("Execution Reverted"))))),
        Err(AlignedError::ProofRejected(s("batch inclusion check reverted: Execution Reverted")))
    );
}

#[test]
fn batch_identifier_hashes_root_and_sender() {
    let root = [7u8; 32];
    assert_eq!(batch_identifier(root, [0; 20]), root);
    let sender = [1u8; 20];
    let mut packed = root.to_vec();
    packed.extend_from_slice(&sender);
    let expected: [u8; 32] = Keccak256::digest(&packed).into();
    assert_eq!(batch_identifier(root, sender), expected);
}

#[test]
fn submit_errors_group_by_recovery() {
    assert_eq!(
        classify_submit_error(SubmitError::BatchVerificationTimeout { timeout_seconds: 30 }),
        AlignedError::BatchFailed(s("verification timeout: 30s"))
    );
    assert_eq!(
        classify_submit_error(SubmitError::EthereumProviderError(s("relative URL without a base"))),
        AlignedError::RpcUnreachable(s("ethereum provider: relative URL without a base"))
    );
    assert_eq!(
        classify_submit_error(SubmitError::EthereumProviderError(s("cannot parse url"))),
        AlignedError::ConfigurationError(s("invalid rpc url: cannot parse url"))
    );
    assert_eq!(
        classify_submit_error(SubmitError::ProofQueueFlushed),
        AlignedError::BatcherRejected(s("proof queue flushed"))
    );
    assert_eq!(
        classify_submit_error(SubmitError::ProofTooLarge),
        AlignedError::PayloadTooLarge(s("proof exceeds batcher size limit"))
    );
    assert_eq!(
        classify_submit_error(SubmitError::InvalidPaymentServiceAddress(s("0xa"), s("0xb"))),
        AlignedError::ConfigurationError(s("payment service address mismatch: expected 0xa, got 0xb"))
    );
    assert_eq!(
        classify_submit_error(SubmitError::IoError(s("/tmp/p"), s("denied"))),
        AlignedError::IoError(s("/tmp/p: denied"))
    );
    assert_eq!(
        classify_generic_submit_error(s("Trying to submit too many proofs at once")),
        AlignedError::BatcherRejected(s("too many proofs: Trying to submit too many proofs at once"))
    );
    assert_eq!(
        classify_generic_submit_error(s("No response from the batcher")),
        AlignedError::RpcUnreachable(s("no response: No response from the batcher"))
    );
    assert_eq!(
        classify_generic_submit_error(s("something else")),
        AlignedError::Unclassified(s("generic: something else"))
    );
    assert_eq!(
        classify_verification_error(VerificationError::EthereumNotAContract(s("0x0"))),
        AlignedError::ConfigurationError(s("not a contract: 0x0"))
    );
    assert_eq!(
        AlignedError::WalletError(s("w")).to_string(),
        "wallet error: w"
    );
}
