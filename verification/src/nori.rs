//! Unlocking Nori tokens on Ethereum: after the bridged chain is brought up
//! to date and the token storage account is validated against its tip, the
//! `unlockTokens` call of the NoriTokenBridge contract carries the amount
//! and the account's Aligned verification receipt.
//!
//! The chain update, the account validation and the transaction happen
//! outside; their outcomes arrive here as plain values.
use vstd::prelude::*;

use crate::evm::{hex_address, parse_address};
use crate::text::str_eq;

verus! {

/// The message a chain update answers when the latest chain is already
/// verified on Ethereum.
pub open spec fn chain_up_to_date_message() -> Seq<char> {
    "Latest chain is already verified"@
}

/// Whether unlocking may go on after bringing the bridged chain up to date:
/// `Ok(true)` when the chain already was, `Ok(false)` when it was updated,
/// and the update's error otherwise.
pub fn unlock_may_proceed(update: Result<(), String>) -> (r: Result<bool, String>)
    ensures
        match update {
            Ok(()) => r == Ok::<bool, String>(false),
            Err(e) => if e@ == chain_up_to_date_message() {
                r == Ok::<bool, String>(true)
            } else {
                r == Err::<bool, String>(e)
            },
        },
{
    match update {
        Ok(()) => Ok(false),
        Err(e) => {
            if str_eq(e.as_str(), "Latest chain is already verified") {
                Ok(true)
            } else {
                Err(e)
            }
        },
    }
}

/// The Aligned verification receipt of a validated account, with the public
/// input it proved.
#[derive(Debug, Clone)]
pub struct AccountVerificationData {
    pub proof_commitment: [u8; 32],
    pub proving_system_aux_data_commitment: [u8; 32],
    pub proof_generator_addr: [u8; 20],
    pub batch_merkle_root: [u8; 32],
    pub merkle_proof: Vec<u8>,
    pub verification_data_batch_index: usize,
    pub pub_input: Vec<u8>,
}

/// The arguments of `NoriTokenBridge.unlockTokens`.
#[derive(Debug, Clone)]
pub struct UnlockTokensCall {
    pub to_unlock_amount: u128,
    pub proof_commitment: [u8; 32],
    pub proving_system_aux_data_commitment: [u8; 32],
    pub proof_generator_addr: [u8; 20],
    pub batch_merkle_root: [u8; 32],
    pub merkle_proof: Vec<u8>,
    pub verification_data_batch_index: usize,
    pub pub_input: Vec<u8>,
    pub batcher_payment_service: [u8; 20],
}

/// The `unlockTokens` call for `amount` with a validated account's receipt
/// and the batcher payment service at `batcher_eth_addr` (a hex address).
pub fn unlock_tokens_call(amount: u128, data: AccountVerificationData, batcher_eth_addr: &str) -> (c:
    UnlockTokensCall)
    requires
        hex_address(batcher_eth_addr@) is Some,
    ensures
        c.to_unlock_amount == amount,
        c.proof_commitment == data.proof_commitment,
        c.proving_system_aux_data_commitment == data.proving_system_aux_data_commitment,
        c.proof_generator_addr == data.proof_generator_addr,
        c.batch_merkle_root == data.batch_merkle_root,
        c.merkle_proof@ == data.merkle_proof@,
        c.verification_data_batch_index == data.verification_data_batch_index,
        c.pub_input@ == data.pub_input@,
        hex_address(batcher_eth_addr@) == Some(c.batcher_payment_service@),
{
    let batcher_payment_service = match parse_address(batcher_eth_addr) {
        Ok(a) => a,
        Err(_) => [0u8; 20],
    };
    build_unlock_call(amount, data, batcher_payment_service)
}

/// The `unlockTokens` call for `amount` with a validated account's receipt
/// and the batcher payment service `batcher`.
pub open spec fn unlock_call_of(amount: u128, data: AccountVerificationData, batcher: [u8; 20]) -> UnlockTokensCall {
    UnlockTokensCall {
        to_unlock_amount: amount,
        proof_commitment: data.proof_commitment,
        proving_system_aux_data_commitment: data.proving_system_aux_data_commitment,
        proof_generator_addr: data.proof_generator_addr,
        batch_merkle_root: data.batch_merkle_root,
        merkle_proof: data.merkle_proof,
        verification_data_batch_index: data.verification_data_batch_index,
        pub_input: data.pub_input,
        batcher_payment_service: batcher,
    }
}

fn build_unlock_call(amount: u128, data: AccountVerificationData, batcher: [u8; 20]) -> (c:
    UnlockTokensCall)
    ensures
        c == unlock_call_of(amount, data, batcher),
{
    UnlockTokensCall {
        to_unlock_amount: amount,
        proof_commitment: data.proof_commitment,
        proving_system_aux_data_commitment: data.proving_system_aux_data_commitment,
        proof_generator_addr: data.proof_generator_addr,
        batch_merkle_root: data.batch_merkle_root,
        merkle_proof: data.merkle_proof,
        verification_data_batch_index: data.verification_data_batch_index,
        pub_input: data.pub_input,
        batcher_payment_service: batcher,
    }
}

// ---------------------------------------------------------------------------
// The unlock run
// ---------------------------------------------------------------------------
/// Where an unlock run stands.
#[derive(Debug, Clone, Copy, PartialEq, Eq)]
pub enum UnlockStage {
    AwaitWallet,
    AwaitUpdate,
    AwaitTipHash,
    AwaitValidation,
    AwaitSend,
    AwaitReceipt,
    Finished,
}

/// An unlock run in progress.
#[derive(Debug, Clone, Copy, PartialEq, Eq)]
pub struct UnlockFlow {
    pub stage: UnlockStage,
    /// The amount to unlock.
    pub amount: u128,
    /// The NoriTokenBridge contract, when its address is hex.
    pub bridge: Option<[u8; 20]>,
    /// The batcher payment service, when its address is hex.
    pub batcher_payment_service: Option<[u8; 20]>,
    /// Whether the unlock transaction has been sent.
    pub sent: bool,
}

/// What came of the last action of an unlock run.
#[derive(Debug)]
pub enum UnlockEvent {
    /// The wallet was loaded, or the error of loading it.
    WalletReady(Result<(), String>),
    /// How bringing the bridged chain up to date ended.
    ChainUpdated(Result<(), String>),
    /// The bridged chain's tip state hash, or the error of reading it.
    TipHashRead(Result<String, String>),
    /// The validated account's receipt, or the validation's error.
    AccountValidated(Result<AccountVerificationData, String>),
    /// How sending the unlock transaction ended.
    Sent(Result<(), String>),
    /// How waiting for its receipt ended.
    Receipt(Result<(), String>),
}

/// What the caller does next in an unlock run.
#[derive(Debug)]
pub enum UnlockAction {
    /// Load the wallet.
    LoadWallet,
    /// Bring the bridged chain up to date.
    UpdateChain,
    /// Read the bridged chain's tip state hash.
    ReadTipHash,
    /// Validate the token storage account against this tip.
    ValidateAccount { tip_state_hash: String },
    /// Send `call` to the NoriTokenBridge contract at `bridge`.
    SendUnlock { bridge: [u8; 20], call: UnlockTokensCall },
    /// Wait for the transaction's receipt.
    WaitReceipt,
    /// Log the error and exit with status 1.
    Exit(String),
    /// Stop the program: a contract address is not hex.
    Abort,
    /// The run is over; a failed send is only logged.
    Finish { send_error: Option<String> },
    /// Nothing: the event does not fit where the run stands.
    Idle,
}

/// The address a hex string denotes, as an array.
pub open spec fn opt_address(s: Seq<char>, a: Option<[u8; 20]>) -> bool {
    match hex_address(s) {
        Some(x) => a matches Some(b) && b@ == x,
        None => a is None,
    }
}

/// Starts an unlock run of `amount` through the NoriTokenBridge at
/// `bridge_addr`, naming the batcher payment service at `batcher_eth_addr`:
/// the caller loads the wallet first.
pub fn begin_unlock(amount: u128, bridge_addr: &str, batcher_eth_addr: &str) -> (r: (
    UnlockFlow,
    UnlockAction,
))
    ensures
        r.0.stage == UnlockStage::AwaitWallet,
        r.0.amount == amount,
        !r.0.sent,
        opt_address(bridge_addr@, r.0.bridge),
        opt_address(batcher_eth_addr@, r.0.batcher_payment_service),
        r.1 is LoadWallet,
        unlock_flow_wf(r.0),
{
    let bridge = match parse_address(bridge_addr) {
        Ok(a) => Some(a),
        Err(_) => None,
    };
    let batcher_payment_service = match parse_address(batcher_eth_addr) {
        Ok(a) => Some(a),
        Err(_) => None,
    };
    (
        UnlockFlow {
            stage: UnlockStage::AwaitWallet,
            amount,
            bridge,
            batcher_payment_service,
            sent: false,
        },
        UnlockAction::LoadWallet,
    )
}

/// `s` moved to `stage`.
pub open spec fn unlock_at(s: UnlockFlow, stage: UnlockStage) -> UnlockFlow {
    UnlockFlow { stage, ..s }
}

/// Whether a chain update's outcome lets the run go on: it succeeded, or
/// the chain already was up to date.
pub open spec fn update_proceeds(u: Result<(), String>) -> bool {
    match u {
        Ok(()) => true,
        Err(x) => x@ == chain_up_to_date_message(),
    }
}

/// Whether `e` is a chain update that lets the run go on.
pub open spec fn proceeding_update(e: UnlockEvent) -> bool {
    match e {
        UnlockEvent::ChainUpdated(u) => update_proceeds(u),
        _ => false,
    }
}

/// One step of an unlock run: the next flow and action for `e`.
pub open spec fn unlock_next(s: UnlockFlow, e: UnlockEvent) -> (UnlockFlow, UnlockAction) {
    match (s.stage, e) {
        (UnlockStage::AwaitWallet, UnlockEvent::WalletReady(Err(x))) => (
            unlock_at(s, UnlockStage::Finished),
            UnlockAction::Exit(x),
        ),
        (UnlockStage::AwaitWallet, UnlockEvent::WalletReady(Ok(()))) => (
            unlock_at(s, UnlockStage::AwaitUpdate),
            UnlockAction::UpdateChain,
        ),
        (UnlockStage::AwaitUpdate, UnlockEvent::ChainUpdated(u)) => if update_proceeds(u) {
            (unlock_at(s, UnlockStage::AwaitTipHash), UnlockAction::ReadTipHash)
        } else {
            (unlock_at(s, UnlockStage::Finished), UnlockAction::Exit(u->Err_0))
        },
        (UnlockStage::AwaitTipHash, UnlockEvent::TipHashRead(Err(x))) => (
            unlock_at(s, UnlockStage::Finished),
            UnlockAction::Exit(x),
        ),
        (UnlockStage::AwaitTipHash, UnlockEvent::TipHashRead(Ok(h))) => (
            unlock_at(s, UnlockStage::AwaitValidation),
            UnlockAction::ValidateAccount { tip_state_hash: h },
        ),
        (UnlockStage::AwaitValidation, UnlockEvent::AccountValidated(Err(x))) => (
            unlock_at(s, UnlockStage::Finished),
            UnlockAction::Exit(x),
        ),
        (UnlockStage::AwaitValidation, UnlockEvent::AccountValidated(Ok(data))) => match (
            s.bridge,
            s.batcher_payment_service,
        ) {
            (Some(b), Some(p)) => (
                UnlockFlow { stage: UnlockStage::AwaitSend, sent: true, ..s },
                UnlockAction::SendUnlock { bridge: b, call: unlock_call_of(s.amount, data, p) },
            ),
            _ => (unlock_at(s, UnlockStage::Finished), UnlockAction::Abort),
        },
        (UnlockStage::AwaitSend, UnlockEvent::Sent(Ok(()))) => (
            unlock_at(s, UnlockStage::AwaitReceipt),
            UnlockAction::WaitReceipt,
        ),
        (UnlockStage::AwaitSend, UnlockEvent::Sent(Err(x))) => (
            unlock_at(s, UnlockStage::Finished),
            UnlockAction::Finish { send_error: Some(x) },
        ),
        (UnlockStage::AwaitReceipt, UnlockEvent::Receipt(Err(x))) => (
            unlock_at(s, UnlockStage::Finished),
            UnlockAction::Exit(x),
        ),
        (UnlockStage::AwaitReceipt, UnlockEvent::Receipt(Ok(()))) => (
            unlock_at(s, UnlockStage::Finished),
            UnlockAction::Finish { send_error: None },
        ),
        _ => (s, UnlockAction::Idle),
    }
}

/// Advances an unlock run by what came of its last action: a failed wallet,
/// chain update (unless the chain already was up to date), tip read, account
/// validation or receipt exits with its error; a contract address that is not
/// hex stops the program once the account is validated; otherwise the
/// `unlockTokens` call is sent once, and a failed send is only logged.
pub fn unlock_step(s: UnlockFlow, e: UnlockEvent) -> (r: (UnlockFlow, UnlockAction))
    ensures
        r == unlock_next(s, e),
{
    match (s.stage, e) {
        (UnlockStage::AwaitWallet, UnlockEvent::WalletReady(Err(x))) => (
            UnlockFlow { stage: UnlockStage::Finished, ..s },
            UnlockAction::Exit(x),
        ),
        (UnlockStage::AwaitWallet, UnlockEvent::WalletReady(Ok(()))) => (
            UnlockFlow { stage: UnlockStage::AwaitUpdate, ..s },
            UnlockAction::UpdateChain,
        ),
        (UnlockStage::AwaitUpdate, UnlockEvent::ChainUpdated(u)) => match unlock_may_proceed(u) {
            Ok(_) => (UnlockFlow { stage: UnlockStage::AwaitTipHash, ..s }, UnlockAction::ReadTipHash),
            Err(x) => (UnlockFlow { stage: UnlockStage::Finished, ..s }, UnlockAction::Exit(x)),
        },
        (UnlockStage::AwaitTipHash, UnlockEvent::TipHashRead(Err(x))) => (
            UnlockFlow { stage: UnlockStage::Finished, ..s },
            UnlockAction::Exit(x),
        ),
        (UnlockStage::AwaitTipHash, UnlockEvent::TipHashRead(Ok(h))) => (
            UnlockFlow { stage: UnlockStage::AwaitValidation, ..s },
            UnlockAction::ValidateAccount { tip_state_hash: h },
        ),
        (UnlockStage::AwaitValidation, UnlockEvent::AccountValidated(Err(x))) => (
            UnlockFlow { stage: UnlockStage::Finished, ..s },
            UnlockAction::Exit(x),
        ),
        (UnlockStage::AwaitValidation, UnlockEvent::AccountValidated(Ok(data))) => match (
            s.bridge,
            s.batcher_payment_service,
        ) {
            (Some(b), Some(p)) => (
                UnlockFlow { stage: UnlockStage::AwaitSend, sent: true, ..s },
                UnlockAction::SendUnlock { bridge: b, call: build_unlock_call(s.amount, data, p) },
            ),
            _ => (UnlockFlow { stage: UnlockStage::Finished, ..s }, UnlockAction::Abort),
        },
        (UnlockStage::AwaitSend, UnlockEvent::Sent(Ok(()))) => (
            UnlockFlow { stage: UnlockStage::AwaitReceipt, ..s },
            UnlockAction::WaitReceipt,
        ),
        (UnlockStage::AwaitSend, UnlockEvent::Sent(Err(x))) => (
            UnlockFlow { stage: UnlockStage::Finished, ..s },
            UnlockAction::Finish { send_error: Some(x) },
        ),
        (UnlockStage::AwaitReceipt, UnlockEvent::Receipt(Err(x))) => (
            UnlockFlow { stage: UnlockStage::Finished, ..s },
            UnlockAction::Exit(x),
        ),
        (UnlockStage::AwaitReceipt, UnlockEvent::Receipt(Ok(()))) => (
            UnlockFlow { stage: UnlockStage::Finished, ..s },
            UnlockAction::Finish { send_error: None },
        ),
        _ => (s, UnlockAction::Idle),
    }
}

/// The actions an unlock run takes for a run of events.
pub open spec fn unlock_trace(s: UnlockFlow, events: Seq<UnlockEvent>) -> Seq<UnlockAction>
    decreases events.len(),
{
    if events.len() == 0 {
        Seq::empty()
    } else {
        seq![unlock_next(s, events[0]).1] + unlock_trace(unlock_next(s, events[0]).0, events.skip(1))
    }
}

/// How many unlock transactions `actions` send.
pub open spec fn unlocks_in(actions: Seq<UnlockAction>) -> nat
    decreases actions.len(),
{
    if actions.len() == 0 {
        0
    } else {
        (if actions[0] is SendUnlock {
            1nat
        } else {
            0nat
        }) + unlocks_in(actions.skip(1))
    }
}

/// What every reachable unlock run satisfies: it is marked sent exactly
/// from the send on.
pub open spec fn unlock_flow_wf(s: UnlockFlow) -> bool {
    s.sent <==> (s.stage == UnlockStage::AwaitSend || s.stage == UnlockStage::AwaitReceipt || (
    s.stage == UnlockStage::Finished && s.sent))
}

proof fn unlock_trace_len(s: UnlockFlow, events: Seq<UnlockEvent>)
    ensures
        unlock_trace(s, events).len() == events.len(),
    decreases events.len(),
{
    if events.len() > 0 {
        unlock_trace_len(unlock_next(s, events[0]).0, events.skip(1));
    }
}

proof fn unlock_trace_unfold(s: UnlockFlow, events: Seq<UnlockEvent>)
    requires
        events.len() > 0,
    ensures
        unlock_trace(s, events).len() == events.len(),
        unlock_trace(s, events)[0] == unlock_next(s, events[0]).1,
        unlock_trace(s, events).skip(1) == unlock_trace(unlock_next(s, events[0]).0, events.skip(1)),
        forall|i: int| 0 < i < events.len() ==> #[trigger] unlock_trace(s, events)[i]
            == unlock_trace(unlock_next(s, events[0]).0, events.skip(1))[i - 1],
{
    unlock_trace_len(unlock_next(s, events[0]).0, events.skip(1));
    assert(unlock_trace(s, events).skip(1) =~= unlock_trace(
        unlock_next(s, events[0]).0,
        events.skip(1),
    ));
}

/// An unlock run sends the `unlockTokens` transaction at most once,
/// whatever comes of its actions.
pub proof fn unlock_sends_at_most_once(s: UnlockFlow, events: Seq<UnlockEvent>)
    requires
        unlock_flow_wf(s),
    ensures
        unlocks_in(unlock_trace(s, events)) + (if s.sent {
            1nat
        } else {
            0nat
        }) <= 1,
    decreases events.len(),
{
    if events.len() > 0 {
        unlock_trace_unfold(s, events);
        unlock_sends_at_most_once(unlock_next(s, events[0]).0, events.skip(1));
    }
}

/// Once an unlock run is over, no event makes it act again.
pub proof fn finished_unlock_stays_idle(s: UnlockFlow, events: Seq<UnlockEvent>)
    requires
        s.stage == UnlockStage::Finished,
    ensures
        forall|i: int| 0 <= i < events.len() ==> #[trigger] unlock_trace(s, events)[i] is Idle,
    decreases events.len(),
{
    unlock_trace_len(s, events);
    if events.len() > 0 {
        unlock_trace_unfold(s, events);
        finished_unlock_stays_idle(s, events.skip(1));
    }
}

/// A chain update that fails (other than on a chain already up to date)
/// exits with its error, and the run does nothing after: no account is
/// validated and no unlock is sent.
pub proof fn failed_update_stops_the_run(s: UnlockFlow, x: String, rest: Seq<UnlockEvent>)
    requires
        s.stage == UnlockStage::AwaitUpdate,
        x@ != chain_up_to_date_message(),
    ensures
        ({
            let t = unlock_trace(s, seq![UnlockEvent::ChainUpdated(Err(x))] + rest);
            &&& t[0] == UnlockAction::Exit(x)
            &&& forall|i: int| 1 <= i < t.len() ==> #[trigger] t[i] is Idle
        }),
{
    let events = seq![UnlockEvent::ChainUpdated(Err(x))] + rest;
    unlock_trace_unfold(s, events);
    assert(events.skip(1) =~= rest);
    finished_unlock_stays_idle(unlock_next(s, events[0]).0, rest);
}

/// An account is validated only after a chain update that let the run go
/// on: every validation in a run from before the update follows such an
/// update.
pub proof fn validation_follows_update(s: UnlockFlow, events: Seq<UnlockEvent>)
    requires
        s.stage == UnlockStage::AwaitWallet || s.stage == UnlockStage::AwaitUpdate,
    ensures
        forall|i: int| 0 <= i < events.len() && #[trigger] unlock_trace(s, events)[i] is ValidateAccount
            ==> exists|j: int| 0 <= j < i && proceeding_update(#[trigger] events[j]),
    decreases events.len(),
{
    unlock_trace_len(s, events);
    if events.len() > 0 {
        unlock_trace_unfold(s, events);
        let t = unlock_next(s, events[0]).0;
        let rest = events.skip(1);
        if t.stage == UnlockStage::AwaitWallet || t.stage == UnlockStage::AwaitUpdate {
            validation_follows_update(t, rest);
            assert forall|i: int| 0 <= i < events.len() && #[trigger] unlock_trace(s, events)[i] is ValidateAccount
                implies exists|j: int| 0 <= j < i && proceeding_update(#[trigger] events[j]) by {
                let k = choose|k: int| 0 <= k < i - 1 && proceeding_update(#[trigger] rest[k]);
                assert(events[k + 1] == rest[k]);
            }
        } else if t.stage == UnlockStage::Finished {
            finished_unlock_stays_idle(t, rest);
        } else {
            assert(t.stage == UnlockStage::AwaitTipHash);
            assert(proceeding_update(events[0]));
        }
    }
}

/// Every unlock transaction of a run carries the run's amount, goes to its
/// bridge contract and names its batcher payment service.
pub proof fn unlock_sends_the_configured_call(s: UnlockFlow, events: Seq<UnlockEvent>)
    ensures
        forall|i: int| 0 <= i < events.len() ==> (#[trigger] unlock_trace(s, events)[i] matches UnlockAction::SendUnlock { bridge, call }
            ==> s.bridge == Some(bridge) && call.to_unlock_amount == s.amount
            && s.batcher_payment_service == Some(call.batcher_payment_service)),
    decreases events.len(),
{
    unlock_trace_len(s, events);
    if events.len() > 0 {
        unlock_trace_unfold(s, events);
        unlock_sends_the_configured_call(unlock_next(s, events[0]).0, events.skip(1));
    }
}

/// Whether action `a`, taken on event `e` in a run of `amount`, is either
/// no unlock transaction, or one whose call carries the validated account's
/// receipt field for field, with the run's amount.
pub open spec fn unlock_carries_receipt(a: UnlockAction, e: UnlockEvent, amount: u128) -> bool {
    match a {
        UnlockAction::SendUnlock { call, .. } => match e {
            UnlockEvent::AccountValidated(Ok(data)) => {
                &&& call.to_unlock_amount == amount
                &&& call.proof_commitment == data.proof_commitment
                &&& call.proving_system_aux_data_commitment
                    == data.proving_system_aux_data_commitment
                &&& call.proof_generator_addr == data.proof_generator_addr
                &&& call.batch_merkle_root == data.batch_merkle_root
                &&& call.merkle_proof == data.merkle_proof
                &&& call.verification_data_batch_index == data.verification_data_batch_index
                &&& call.pub_input == data.pub_input
            },
            _ => false,
        },
        _ => true,
    }
}

/// Every unlock transaction is sent on the validation of the token storage
/// account, and its call carries that account's Aligned verification receipt
/// unchanged (both commitments, the generator address, the batch root, the
/// Merkle proof, the batch index and the public input) with the run's
/// amount.
pub proof fn unlock_call_carries_the_receipt(s: UnlockFlow, events: Seq<UnlockEvent>)
    ensures
        forall|i: int| 0 <= i < events.len() ==> unlock_carries_receipt(
            #[trigger] unlock_trace(s, events)[i],
            events[i],
            s.amount,
        ),
    decreases events.len(),
{
    unlock_trace_len(s, events);
    if events.len() > 0 {
        unlock_trace_unfold(s, events);
        unlock_call_carries_the_receipt(unlock_next(s, events[0]).0, events.skip(1));
        assert forall|i: int| 0 <= i < events.len() implies unlock_carries_receipt(
            #[trigger] unlock_trace(s, events)[i],
            events[i],
            s.amount,
        ) by {
            if i > 0 {
                assert(events[i] == events.skip(1)[i - 1]);
            }
        }
    }
}

/// Whether action `a`, taken on event `e`, is either no validation, or a
/// validation against the tip state hash `e` read.
pub open spec fn validates_tip_read(a: UnlockAction, e: UnlockEvent) -> bool {
    match a {
        UnlockAction::ValidateAccount { tip_state_hash } => match e {
            UnlockEvent::TipHashRead(Ok(h)) => tip_state_hash == h,
            _ => false,
        },
        _ => true,
    }
}

/// The token storage account is validated against the tip state hash just
/// read from the bridge, and only then.
pub proof fn validation_uses_the_tip_read(s: UnlockFlow, events: Seq<UnlockEvent>)
    ensures
        forall|i: int| 0 <= i < events.len() ==> validates_tip_read(
            #[trigger] unlock_trace(s, events)[i],
            events[i],
        ),
    decreases events.len(),
{
    unlock_trace_len(s, events);
    if events.len() > 0 {
        unlock_trace_unfold(s, events);
        validation_uses_the_tip_read(unlock_next(s, events[0]).0, events.skip(1));
        assert forall|i: int| 0 <= i < events.len() implies validates_tip_read(
            #[trigger] unlock_trace(s, events)[i],
            events[i],
        ) by {
            if i > 0 {
                assert(events[i] == events.skip(1)[i - 1]);
            }
        }
    }
}

} // verus!
