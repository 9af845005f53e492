use mina_bridge_core::aligned::{
    after_inclusion_check, batcher_max_fee, status_after_batch_read, BatchVerificationStatus,
    MaxFee, PollOutcome, PollingConfig, SubmissionMode,
};
use mina_bridge_core::eth::{
    begin_update, update_step, UpdateAction, UpdateEvent, UpdateFailure, UpdateStage,
};
use mina_bridge_core::rpcs::errors::AlignedError;
use mina_bridge_core::rpcs::eth_errors::EthError;
use mina_bridge_core::balance::{parse_initial_balance, try_parse_initial_balance};
use mina_bridge_core::constants::{ANVIL_CHAIN_ID, SEPOLIA_CHAIN_ID};
use mina_bridge_core::nori::{
    begin_unlock, unlock_step, AccountVerificationData, UnlockAction, UnlockEvent, UnlockStage,
};
use mina_bridge_core::rpcs::aligned::AlignedNetwork;
use mina_bridge_core::submission::{
    begin_polling, begin_submission, poll_step, submit_step, PollEvent, PollFailure, PollStage,
    PollStep, PollTiming, SubmitAction, SubmitEvent, SubmitFailure, SubmitStage,
};

fn s(x: &str) -> String {
    x.to_string()
}

const ADDR: &str = "0x66f9664f97F2b50F62D13eA064982f936dE76657";

#[test]
fn submission_with_bad_address_stops_at_once() {
    let r = begin_submission(&AlignedNetwork::Devnet, SubmissionMode::SubmitAndWait, "0x12");
    assert!(r.is_err());
}

#[test]
fn submission_with_configured_fee() {
    let st = begin_submission(&AlignedNetwork::Sepolia, SubmissionMode::SubmitWithPolling, ADDR)
        .unwrap();
    assert_eq!(st.chain_id, SEPOLIA_CHAIN_ID);
    assert_eq!(st.proof_generator[0], 0x66);
    assert_eq!(st.flow.fee, None);
    let (f, a) = submit_step(st.flow, SubmitEvent::WalletBuilt(Ok(())));
    assert_eq!(a, SubmitAction::SettleFee);
    let fee = batcher_max_fee(Some("2"), Some("0x64"));
    let (f, a) = submit_step(f, SubmitEvent::FeeSettled(fee));
    assert_eq!(a, SubmitAction::FetchNonce);
    assert_eq!(f.fee, Some(MaxFee::Fixed([100, 0, 0, 0])));
    let (f, a) = submit_step(f, SubmitEvent::NonceFetched(Some([7, 0, 0, 0])));
    assert_eq!(
        a,
        SubmitAction::Submit {
            mode: SubmissionMode::SubmitWithPolling,
            max_fee: [100, 0, 0, 0],
            nonce: [7, 0, 0, 0]
        }
    );
    assert!(f.submitted);
    // an event that does not fit changes nothing
    let (f, a) = submit_step(f, SubmitEvent::NonceFetched(Some([8, 0, 0, 0])));
    assert_eq!(a, SubmitAction::Idle);
    let (f, a) = submit_step(f, SubmitEvent::SubmissionEnded(Ok(())));
    assert_eq!(a, SubmitAction::Finish(Ok(())));
    assert_eq!(f.stage, SubmitStage::Finished);
}

#[test]
fn submission_failures() {
    let st = begin_submission(&AlignedNetwork::Mainnet, SubmissionMode::SubmitAndWait, ADDR).unwrap();
    assert_eq!(st.chain_id, ANVIL_CHAIN_ID);
    let (_, a) = submit_step(st.flow, SubmitEvent::WalletBuilt(Err(s("bad key"))));
    match a {
        SubmitAction::Finish(Err(e)) => {
            assert_eq!(e.message(), "Failed to create wallet from bytes: bad key")
        }
        _ => panic!("expected a wallet failure"),
    }
    let (f, _) = submit_step(st.flow, SubmitEvent::WalletBuilt(Ok(())));
    let (f, a) = submit_step(f, SubmitEvent::FeeSettled(batcher_max_fee(None, None)));
    assert_eq!(a, SubmitAction::EstimateFee { instant: false });
    let (f2, a) = submit_step(f, SubmitEvent::FeeEstimated(Ok([3, 0, 0, 0])));
    assert_eq!(a, SubmitAction::FetchNonce);
    let (_, a) = submit_step(f2, SubmitEvent::NonceFetched(None));
    assert_eq!(a, SubmitAction::Finish(Err(SubmitFailure::Nonce)));
    assert_eq!(
        SubmitFailure::Nonce.message(),
        "Error while retrieving nonce from aligned batcher"
    );
    let (_, a) = submit_step(f, SubmitEvent::FeeEstimated(Err(s("rpc down"))));
    assert_eq!(a, SubmitAction::Finish(Err(SubmitFailure::FeeEstimate(s("rpc down")))));
}

#[test]
fn submission_estimates_before_wallet_are_ignored() {
    let st = begin_submission(&AlignedNetwork::Devnet, SubmissionMode::SubmitAndWait, ADDR).unwrap();
    let (f, a) = submit_step(st.flow, SubmitEvent::FeeSettled(MaxFee::EstimateInstant));
    assert_eq!(a, SubmitAction::Idle);
    assert_eq!(f, st.flow);
    let (f, _) = submit_step(f, SubmitEvent::WalletBuilt(Ok(())));
    let (_, a) = submit_step(f, SubmitEvent::FeeSettled(MaxFee::EstimateInstant));
    assert_eq!(a, SubmitAction::EstimateFee { instant: true });
}

fn timing() -> PollTiming {
    PollTiming { total_secs: s("3.01"), submit_secs: s("1.00"), poll_secs: s("2.01") }
}

#[test]
fn polling_run() {
    let c = PollingConfig { poll_interval_secs: 2, timeout_secs: 3 };
    let (f, a) = begin_polling(c);
    assert_eq!(a, PollStep::Submit);
    let (f, a) = poll_step(f, PollEvent::Submitted(Ok(())));
    assert_eq!(a, PollStep::ReadClock);
    let (f, a) = poll_step(f, PollEvent::Clock { elapsed_nanos: 1_000_000_000, timing: timing() });
    assert_eq!(a, PollStep::Poll { attempt: 1 });
    let (f, a) = poll_step(f, PollEvent::Answered(PollOutcome::Failed(s("rpc"))));
    assert_eq!(a, PollStep::Sleep { secs: 2 });
    let (f, a) = poll_step(f, PollEvent::Woke);
    assert_eq!(a, PollStep::ReadClock);
    let (f, a) = poll_step(f, PollEvent::Clock { elapsed_nanos: 2_000_000_000, timing: timing() });
    assert_eq!(a, PollStep::Poll { attempt: 2 });
    let (f, a) = poll_step(f, PollEvent::Answered(PollOutcome::Verified));
    assert_eq!(a, PollStep::Finish(Ok(())));
    assert_eq!(f.stage, PollStage::Finished);
}

#[test]
fn polling_timeout_and_submit_error() {
    let c = PollingConfig { poll_interval_secs: 2, timeout_secs: 3 };
    let (f, _) = begin_polling(c);
    let (_, a) = poll_step(f, PollEvent::Submitted(Err(s("rejected"))));
    assert_eq!(a, PollStep::Finish(Err(PollFailure::Submission(s("rejected")))));
    let (f, _) = poll_step(f, PollEvent::Submitted(Ok(())));
    let (f, a) = poll_step(f, PollEvent::Clock { elapsed_nanos: 3_000_000_000, timing: timing() });
    assert_eq!(f.stage, PollStage::Finished);
    match a {
        PollStep::Finish(Err(e)) => assert_eq!(
            e.message(),
            "Verification polling timed out after 3.01s (0 polls). Submit time: 1.00s, Poll time: 2.01s"
        ),
        _ => panic!("expected a timeout"),
    }
}

fn receipt() -> AccountVerificationData {
    AccountVerificationData {
        proof_commitment: [1; 32],
        proving_system_aux_data_commitment: [2; 32],
        proof_generator_addr: [3; 20],
        batch_merkle_root: [4; 32],
        merkle_proof: vec![5, 6],
        verification_data_batch_index: 9,
        pub_input: vec![7],
    }
}

#[test]
fn unlock_run() {
    let (f, a) = begin_unlock(1000, ADDR, "0x000000000000000000000000000000000000dEaD");
    assert!(matches!(a, UnlockAction::LoadWallet));
    let (f, a) = unlock_step(f, UnlockEvent::WalletReady(Ok(())));
    assert!(matches!(a, UnlockAction::UpdateChain));
    let (f, a) = unlock_step(f, UnlockEvent::ChainUpdated(Err(s("Latest chain is already verified"))));
    assert!(matches!(a, UnlockAction::ReadTipHash));
    let (f, a) = unlock_step(f, UnlockEvent::TipHashRead(Ok(s("3NK"))));
    match a {
        UnlockAction::ValidateAccount { tip_state_hash } => assert_eq!(tip_state_hash, "3NK"),
        _ => panic!("expected a validation"),
    }
    let (f, a) = unlock_step(f, UnlockEvent::AccountValidated(Ok(receipt())));
    match a {
        UnlockAction::SendUnlock { bridge, call } => {
            assert_eq!(bridge[0], 0x66);
            assert_eq!(call.to_unlock_amount, 1000);
            assert_eq!(call.merkle_proof, vec![5, 6]);
            assert_eq!(call.batcher_payment_service[19], 0xad);
        }
        _ => panic!("expected the unlock transaction"),
    }
    assert!(f.sent);
    let (f, a) = unlock_step(f, UnlockEvent::Sent(Ok(())));
    assert!(matches!(a, UnlockAction::WaitReceipt));
    let (f, a) = unlock_step(f, UnlockEvent::Receipt(Ok(())));
    assert!(matches!(a, UnlockAction::Finish { send_error: None }));
    assert_eq!(f.stage, UnlockStage::Finished);
}

#[test]
fn unlock_stops_on_failed_update() {
    let (f, _) = begin_unlock(5, ADDR, ADDR);
    let (f, _) = unlock_step(f, UnlockEvent::WalletReady(Ok(())));
    let (f, a) = unlock_step(f, UnlockEvent::ChainUpdated(Err(s("boom"))));
    match a {
        UnlockAction::Exit(e) => assert_eq!(e, "boom"),
        _ => panic!("expected an exit"),
    }
    let (_, a) = unlock_step(f, UnlockEvent::AccountValidated(Ok(receipt())));
    assert!(matches!(a, UnlockAction::Idle));
}

#[test]
fn unlock_send_error_is_only_logged() {
    let (f, _) = begin_unlock(5, ADDR, ADDR);
    let (f, _) = unlock_step(f, UnlockEvent::WalletReady(Ok(())));
    let (f, _) = unlock_step(f, UnlockEvent::ChainUpdated(Ok(())));
    let (f, _) = unlock_step(f, UnlockEvent::TipHashRead(Ok(s("h"))));
    let (f, _) = unlock_step(f, UnlockEvent::AccountValidated(Ok(receipt())));
    let (_, a) = unlock_step(f, UnlockEvent::Sent(Err(s("nonce too low"))));
    match a {
        UnlockAction::Finish { send_error: Some(e) } => assert_eq!(e, "nonce too low"),
        _ => panic!("expected a logged send error"),
    }
    let (f, _) = begin_unlock(5, "0xnot", ADDR);
    let (f, _) = unlock_step(f, UnlockEvent::WalletReady(Ok(())));
    let (f, _) = unlock_step(f, UnlockEvent::ChainUpdated(Ok(())));
    let (f, _) = unlock_step(f, UnlockEvent::TipHashRead(Ok(s("h"))));
    let (_, a) = unlock_step(f, UnlockEvent::AccountValidated(Ok(receipt())));
    assert!(matches!(a, UnlockAction::Abort));
}

#[test]
fn initial_balances() {
    assert_eq!(parse_initial_balance(None), Ok(None));
    assert_eq!(parse_initial_balance(Some("1.5")), Ok(Some(1_500_000_000_000_000_000)));
    assert_eq!(parse_initial_balance(Some("2")), Ok(Some(2_000_000_000_000_000_000)));
    // halves go to the even wei
    assert_eq!(parse_initial_balance(Some("0.0000000000000000005")), Ok(Some(0)));
    assert_eq!(parse_initial_balance(Some("0.0000000000000000015")), Ok(Some(2)));
    assert_eq!(
        parse_initial_balance(Some("-1")),
        Err(s("initial balance must be non-negative"))
    );
    assert!(parse_initial_balance(Some("abc")).unwrap_err().starts_with("failed to parse decimal: "));
    assert_eq!(try_parse_initial_balance(Some("79228162514264337593543950335")), None);
    assert_eq!(try_parse_initial_balance(Some("0.25")), Some(Ok(Some(250_000_000_000_000_000))));
}

fn hashes(v: &[&str]) -> Vec<String> {
    v.iter().map(|x| x.to_string()).collect()
}

#[test]
fn update_chain_run() {
    let f = begin_update(hashes(&["a", "b"]));
    let (f, a) = update_step(f, UpdateEvent::GasEstimated(Ok(100_000)));
    assert_eq!(a, UpdateAction::ReadGasPrice);
    let (f, a) = update_step(f, UpdateEvent::GasPriceRead(Ok(20_000_000_000)));
    assert_eq!(a, UpdateAction::Send { gas_limit: 110_000 });
    let (f, a) = update_step(f, UpdateEvent::Sent(Ok(())));
    assert_eq!(a, UpdateAction::WaitReceipt);
    let (f, a) = update_step(f, UpdateEvent::Mined(Ok(())));
    assert_eq!(a, UpdateAction::ReadStoredHashes);
    let (f, a) = update_step(f, UpdateEvent::StoredHashesRead(Ok(hashes(&["a", "b"]))));
    assert_eq!(a, UpdateAction::Finish(Ok(())));
    assert_eq!(f.stage, UpdateStage::Finished);
}

#[test]
fn update_chain_failures() {
    let run = |price: u128, estimate: u64| {
        let f = begin_update(hashes(&["a"]));
        let (f, _) = update_step(f, UpdateEvent::GasEstimated(Ok(estimate)));
        update_step(f, UpdateEvent::GasPriceRead(Ok(price))).1
    };
    match run(301_000_000_000, 10) {
        UpdateAction::Finish(Err(e)) => {
            assert_eq!(e.message(), "Gas price too high: 301 gwei (max: 300 gwei)")
        }
        _ => panic!("expected a refused gas price"),
    }
    match run(1, 1_000_000) {
        UpdateAction::Finish(Err(e)) => {
            assert_eq!(e.message(), "Estimated gas too high: 1100000 (max: 1000000)")
        }
        _ => panic!("expected a refused estimate"),
    }
    let f = begin_update(hashes(&["a"]));
    let (f, _) = update_step(f, UpdateEvent::GasEstimated(Ok(10)));
    let (f, _) = update_step(f, UpdateEvent::GasPriceRead(Ok(1)));
    let (f, _) = update_step(f, UpdateEvent::Sent(Ok(())));
    let (f, _) = update_step(f, UpdateEvent::Mined(Ok(())));
    let (_, a) = update_step(f, UpdateEvent::StoredHashesRead(Ok(hashes(&["b"]))));
    assert_eq!(a, UpdateAction::Finish(Err(UpdateFailure::Mismatch)));
    assert_eq!(
        UpdateFailure::Mismatch.message(),
        "Stored network state hashes don't match the candidate's"
    );
    let f = begin_update(hashes(&[]));
    let (_, a) = update_step(f, UpdateEvent::GasEstimated(Err(s("revert"))));
    assert_eq!(a, UpdateAction::Finish(Err(UpdateFailure::Call(s("revert")))));
}

#[test]
fn verification_check_phases() {
    assert_eq!(after_inclusion_check(Some(Ok(true))), Ok(Some(BatchVerificationStatus::Verified)));
    assert_eq!(after_inclusion_check(Some(Ok(false))), Ok(None));
    assert_eq!(
        after_inclusion_check(None),
        Err(AlignedError::RpcUnreachable(s("is_proof_verified timed out")))
    );
    assert_eq!(status_after_batch_read(Ok(true)), Ok(BatchVerificationStatus::Failed));
    assert_eq!(status_after_batch_read(Ok(false)), Ok(BatchVerificationStatus::Pending));
    assert_eq!(
        status_after_batch_read(Err(EthError::RpcUnreachable(s("down")))),
        Err(AlignedError::BatcherContractCallFailed(EthError::RpcUnreachable(s("down"))))
    );
}
