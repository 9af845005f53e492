//! The order of a direct submission to Aligned, as two state machines that
//! the caller drives: it performs each action (build the wallet, settle the
//! fee, estimate it, fetch the nonce, submit, poll, sleep) and hands back
//! what came of it.
//!
//! The submission first checks the proof generator address, then builds the
//! wallet, settles the maximum fee, fetches the nonce and submits once. The
//! polling machine submits once and then polls, sleeping between polls, until
//! the proof is verified or the timeout passes.
use vstd::prelude::*;
use vstd::string::StringExecFns;

use crate::aligned::{
    after_poll, next_poll, AfterPoll, MaxFee, PollAction, PollOutcome, PollingConfig,
    SubmissionMode, nanos_of_secs, submission_chain, submission_chain_id,
};
use crate::evm::{address_hex_error, hex_address, parse_address};
use crate::rpcs::aligned::AlignedNetwork;
use crate::rpcs::error::labelled;
use crate::text::{decimal, push_decimal};

verus! {

// ---------------------------------------------------------------------------
// Submission
// ---------------------------------------------------------------------------
/// Where a submission stands.
#[derive(Debug, Clone, Copy, PartialEq, Eq)]
pub enum SubmitStage {
    /// Waiting for the wallet to be built.
    AwaitWallet,
    /// Waiting for the maximum fee the configuration selects.
    AwaitFeeSettings,
    /// Waiting for the fee estimate.
    AwaitFee,
    /// Waiting for the batcher's nonce.
    AwaitNonce,
    /// Waiting for the submission to end.
    AwaitSubmission,
    /// Nothing more to do.
    Finished,
}

/// A submission in progress.
#[derive(Debug, Clone, Copy, PartialEq, Eq)]
pub struct SubmitFlow {
    pub stage: SubmitStage,
    pub mode: SubmissionMode,
    /// The maximum fee the configuration selected, once settled.
    pub fee: Option<MaxFee>,
    /// The maximum fee in force once known.
    pub max_fee: [u64; 4],
    /// Whether the proof has been handed to the batcher.
    pub submitted: bool,
}

/// What came of the last action of a submission.
#[derive(Debug, PartialEq, Eq)]
pub enum SubmitEvent {
    /// The wallet was built, or the error of building it.
    WalletBuilt(Result<(), String>),
    /// The maximum fee the configuration selects.
    FeeSettled(MaxFee),
    /// The estimated fee, or the estimate's error.
    FeeEstimated(Result<[u64; 4], String>),
    /// The batcher's nonce, if it could be had.
    NonceFetched(Option<[u64; 4]>),
    /// How the submission ended.
    SubmissionEnded(Result<(), String>),
}

/// Why a submission failed.
#[derive(Debug, PartialEq, Eq)]
pub enum SubmitFailure {
    /// The wallet could not be built from the key bytes.
    Wallet(String),
    /// The fee estimate failed.
    FeeEstimate(String),
    /// The batcher gave no nonce.
    Nonce,
    /// The submission itself failed.
    Submission(String),
}

/// What the caller does next in a submission.
#[derive(Debug, PartialEq, Eq)]
pub enum SubmitAction {
    /// Settle the maximum fee from the fee variables (`batcher_max_fee`,
    /// stopping the program on a fault that `batcher_fee_fault` finds).
    SettleFee,
    /// Estimate the fee (the instant estimate, or the default one).
    EstimateFee { instant: bool },
    /// Fetch the nonce from the batcher.
    FetchNonce,
    /// Hand the proof to the batcher in `mode` with this fee and nonce.
    Submit { mode: SubmissionMode, max_fee: [u64; 4], nonce: [u64; 4] },
    /// The submission is over, with this outcome.
    Finish(Result<(), SubmitFailure>),
    /// Nothing: the event does not fit where the submission stands.
    Idle,
}

/// A submission whose proof generator address was accepted: the flow, the
/// address, and the chain the wallet is to be built for.
#[derive(Debug, Clone, Copy, PartialEq, Eq)]
pub struct SubmitStart {
    pub flow: SubmitFlow,
    pub proof_generator: [u8; 20],
    pub chain_id: u64,
}

impl SubmitFailure {
    /// The error text of the failure.
    pub open spec fn text(self) -> Seq<char> {
        match self {
            SubmitFailure::Wallet(e) => "Failed to create wallet from bytes: "@ + e@,
            SubmitFailure::FeeEstimate(e) => e@,
            SubmitFailure::Nonce => "Error while retrieving nonce from aligned batcher"@,
            SubmitFailure::Submission(e) => e@,
        }
    }

    /// The error text of the failure.
    pub fn message(&self) -> (m: String)
        ensures
            m@ == self.text(),
    {
        match self {
            SubmitFailure::Wallet(e) => labelled("Failed to create wallet from bytes: ", e.as_str()),
            SubmitFailure::FeeEstimate(e) => e.as_str().to_owned(),
            SubmitFailure::Nonce => "Error while retrieving nonce from aligned batcher".to_owned(),
            SubmitFailure::Submission(e) => e.as_str().to_owned(),
        }
    }
}

/// Starts a submission of a proof generated by `proof_generator_addr`: an
/// address that is not hex is returned as an error at once, before anything
/// else happens; otherwise the wallet is to be built for the network's chain.
pub fn begin_submission(
    network: &AlignedNetwork,
    mode: SubmissionMode,
    proof_generator_addr: &str,
) -> (r: Result<SubmitStart, String>)
    ensures
        match hex_address(proof_generator_addr@) {
            None => r matches Err(e) && e@ == address_hex_error(proof_generator_addr@),
            Some(a) => r matches Ok(st) && st.proof_generator@ == a && st.chain_id
                == submission_chain(*network) && st.flow.stage == SubmitStage::AwaitWallet
                && st.flow.mode == mode && !st.flow.submitted && st.flow.fee is None
                && submit_flow_wf(st.flow),
        },
{
    let proof_generator = match parse_address(proof_generator_addr) {
        Err(e) => return Err(e),
        Ok(a) => a,
    };
    let chain_id = submission_chain_id(network);
    Ok(SubmitStart {
        flow: SubmitFlow {
            stage: SubmitStage::AwaitWallet,
            mode,
            fee: None,
            max_fee: [0u64; 4],
            submitted: false,
        },
        proof_generator,
        chain_id,
    })
}

/// `s` moved to `stage`.
pub open spec fn submit_at(s: SubmitFlow, stage: SubmitStage) -> SubmitFlow {
    SubmitFlow { stage, ..s }
}

/// One step of a submission: the next flow and action for `e`.
pub open spec fn submit_next(s: SubmitFlow, e: SubmitEvent) -> (SubmitFlow, SubmitAction) {
    match (s.stage, e) {
        (SubmitStage::AwaitWallet, SubmitEvent::WalletBuilt(Err(x))) => (
            submit_at(s, SubmitStage::Finished),
            SubmitAction::Finish(Err(SubmitFailure::Wallet(x))),
        ),
        (SubmitStage::AwaitWallet, SubmitEvent::WalletBuilt(Ok(()))) => (
            submit_at(s, SubmitStage::AwaitFeeSettings),
            SubmitAction::SettleFee,
        ),
        (SubmitStage::AwaitFeeSettings, SubmitEvent::FeeSettled(f)) => match f {
            MaxFee::EstimateDefault => (
                SubmitFlow { stage: SubmitStage::AwaitFee, fee: Some(f), ..s },
                SubmitAction::EstimateFee { instant: false },
            ),
            MaxFee::EstimateInstant => (
                SubmitFlow { stage: SubmitStage::AwaitFee, fee: Some(f), ..s },
                SubmitAction::EstimateFee { instant: true },
            ),
            MaxFee::Fixed(w) => (
                SubmitFlow { stage: SubmitStage::AwaitNonce, fee: Some(f), max_fee: w, ..s },
                SubmitAction::FetchNonce,
            ),
        },
        (SubmitStage::AwaitFee, SubmitEvent::FeeEstimated(Err(x))) => (
            submit_at(s, SubmitStage::Finished),
            SubmitAction::Finish(Err(SubmitFailure::FeeEstimate(x))),
        ),
        (SubmitStage::AwaitFee, SubmitEvent::FeeEstimated(Ok(w))) => (
            SubmitFlow { stage: SubmitStage::AwaitNonce, max_fee: w, ..s },
            SubmitAction::FetchNonce,
        ),
        (SubmitStage::AwaitNonce, SubmitEvent::NonceFetched(None)) => (
            submit_at(s, SubmitStage::Finished),
            SubmitAction::Finish(Err(SubmitFailure::Nonce)),
        ),
        (SubmitStage::AwaitNonce, SubmitEvent::NonceFetched(Some(n))) => (
            SubmitFlow { stage: SubmitStage::AwaitSubmission, submitted: true, ..s },
            SubmitAction::Submit { mode: s.mode, max_fee: s.max_fee, nonce: n },
        ),
        (SubmitStage::AwaitSubmission, SubmitEvent::SubmissionEnded(Ok(()))) => (
            submit_at(s, SubmitStage::Finished),
            SubmitAction::Finish(Ok(())),
        ),
        (SubmitStage::AwaitSubmission, SubmitEvent::SubmissionEnded(Err(x))) => (
            submit_at(s, SubmitStage::Finished),
            SubmitAction::Finish(Err(SubmitFailure::Submission(x))),
        ),
        _ => (s, SubmitAction::Idle),
    }
}

/// Advances a submission by what came of its last action: a failed wallet,
/// fee estimate, nonce or submission ends it with that failure; once the
/// wallet is built the maximum fee is settled, then estimated unless the
/// configuration fixes it, then the nonce is fetched, then the proof is
/// submitted once in the flow's mode with the fee in force.
pub fn submit_step(s: SubmitFlow, e: SubmitEvent) -> (r: (SubmitFlow, SubmitAction))
    ensures
        r == submit_next(s, e),
{
    match (s.stage, e) {
        (SubmitStage::AwaitWallet, SubmitEvent::WalletBuilt(Err(x))) => (
            SubmitFlow { stage: SubmitStage::Finished, ..s },
            SubmitAction::Finish(Err(SubmitFailure::Wallet(x))),
        ),
        (SubmitStage::AwaitWallet, SubmitEvent::WalletBuilt(Ok(()))) => (
            SubmitFlow { stage: SubmitStage::AwaitFeeSettings, ..s },
            SubmitAction::SettleFee,
        ),
        (SubmitStage::AwaitFeeSettings, SubmitEvent::FeeSettled(f)) => match f {
            MaxFee::EstimateDefault => (
                SubmitFlow { stage: SubmitStage::AwaitFee, fee: Some(f), ..s },
                SubmitAction::EstimateFee { instant: false },
            ),
            MaxFee::EstimateInstant => (
                SubmitFlow { stage: SubmitStage::AwaitFee, fee: Some(f), ..s },
                SubmitAction::EstimateFee { instant: true },
            ),
            MaxFee::Fixed(w) => (
                SubmitFlow { stage: SubmitStage::AwaitNonce, fee: Some(f), max_fee: w, ..s },
                SubmitAction::FetchNonce,
            ),
        },
        (SubmitStage::AwaitFee, SubmitEvent::FeeEstimated(Err(x))) => (
            SubmitFlow { stage: SubmitStage::Finished, ..s },
            SubmitAction::Finish(Err(SubmitFailure::FeeEstimate(x))),
        ),
        (SubmitStage::AwaitFee, SubmitEvent::FeeEstimated(Ok(w))) => (
            SubmitFlow { stage: SubmitStage::AwaitNonce, max_fee: w, ..s },
            SubmitAction::FetchNonce,
        ),
        (SubmitStage::AwaitNonce, SubmitEvent::NonceFetched(None)) => (
            SubmitFlow { stage: SubmitStage::Finished, ..s },
            SubmitAction::Finish(Err(SubmitFailure::Nonce)),
        ),
        (SubmitStage::AwaitNonce, SubmitEvent::NonceFetched(Some(n))) => (
            SubmitFlow { stage: SubmitStage::AwaitSubmission, submitted: true, ..s },
            SubmitAction::Submit { mode: s.mode, max_fee: s.max_fee, nonce: n },
        ),
        (SubmitStage::AwaitSubmission, SubmitEvent::SubmissionEnded(Ok(()))) => (
            SubmitFlow { stage: SubmitStage::Finished, ..s },
            SubmitAction::Finish(Ok(())),
        ),
        (SubmitStage::AwaitSubmission, SubmitEvent::SubmissionEnded(Err(x))) => (
            SubmitFlow { stage: SubmitStage::Finished, ..s },
            SubmitAction::Finish(Err(SubmitFailure::Submission(x))),
        ),
        _ => (s, SubmitAction::Idle),
    }
}

/// The actions a submission takes for a run of events.
pub open spec fn submit_trace(s: SubmitFlow, events: Seq<SubmitEvent>) -> Seq<SubmitAction>
    decreases events.len(),
{
    if events.len() == 0 {
        Seq::empty()
    } else {
        seq![submit_next(s, events[0]).1] + submit_trace(submit_next(s, events[0]).0, events.skip(1))
    }
}

/// How many times `actions` hand the proof to the batcher.
pub open spec fn submissions_in(actions: Seq<SubmitAction>) -> nat
    decreases actions.len(),
{
    if actions.len() == 0 {
        0
    } else {
        (if actions[0] is Submit {
            1nat
        } else {
            0nat
        }) + submissions_in(actions.skip(1))
    }
}

/// What every reachable submission satisfies: only a submitting flow is
/// marked submitted, the fee is settled exactly from the settling on, a fee
/// is estimated only when the settled fee asks for an estimate, and a fixed
/// fee is the one in force.
pub open spec fn submit_flow_wf(s: SubmitFlow) -> bool {
    &&& s.submitted <==> (s.stage == SubmitStage::AwaitSubmission || (s.stage
        == SubmitStage::Finished && s.submitted))
    &&& (s.stage == SubmitStage::AwaitWallet || s.stage == SubmitStage::AwaitFeeSettings)
        ==> s.fee is None
    &&& s.stage == SubmitStage::AwaitFee ==> (s.fee == Some(MaxFee::EstimateDefault) || s.fee
        == Some(MaxFee::EstimateInstant))
    &&& (s.stage == SubmitStage::AwaitNonce || s.stage == SubmitStage::AwaitSubmission) ==> (
    s.fee is Some && (s.fee matches Some(MaxFee::Fixed(w)) ==> s.max_fee == w))
}

proof fn submit_next_keeps_wf(s: SubmitFlow, e: SubmitEvent)
    requires
        submit_flow_wf(s),
    ensures
        submit_flow_wf(submit_next(s, e).0),
        submit_next(s, e).1 is Submit ==> !s.submitted && submit_next(s, e).0.submitted,
        s.submitted ==> submit_next(s, e).0.submitted,
        s.fee is Some ==> submit_next(s, e).0.fee == s.fee,
        submit_next(s, e).1 matches SubmitAction::Submit { max_fee, .. } ==> (s.fee matches Some(
            MaxFee::Fixed(w),
        ) ==> max_fee == w),
{
}

proof fn trace_unfold(s: SubmitFlow, events: Seq<SubmitEvent>)
    requires
        events.len() > 0,
    ensures
        submit_trace(s, events).len() == events.len(),
        submit_trace(s, events)[0] == submit_next(s, events[0]).1,
        submit_trace(s, events).skip(1) == submit_trace(submit_next(s, events[0]).0, events.skip(1)),
    decreases events.len(),
{
    submit_trace_len(submit_next(s, events[0]).0, events.skip(1));
    assert(submit_trace(s, events).skip(1) =~= submit_trace(
        submit_next(s, events[0]).0,
        events.skip(1),
    ));
}

proof fn submit_trace_len(s: SubmitFlow, events: Seq<SubmitEvent>)
    ensures
        submit_trace(s, events).len() == events.len(),
    decreases events.len(),
{
    if events.len() > 0 {
        submit_trace_len(submit_next(s, events[0]).0, events.skip(1));
    }
}

/// A submission hands the proof to the batcher at most once, whatever comes
/// of its actions: never again once it has, and at most once from a flow
/// that has not.
pub proof fn submission_submits_at_most_once(s: SubmitFlow, events: Seq<SubmitEvent>)
    requires
        submit_flow_wf(s),
    ensures
        submissions_in(submit_trace(s, events)) + (if s.submitted {
            1nat
        } else {
            0nat
        }) <= 1,
    decreases events.len(),
{
    if events.len() > 0 {
        trace_unfold(s, events);
        submit_next_keeps_wf(s, events[0]);
        submission_submits_at_most_once(submit_next(s, events[0]).0, events.skip(1));
    }
}

/// Once a submission is over, no event makes it act again.
pub proof fn finished_submission_stays_idle(s: SubmitFlow, events: Seq<SubmitEvent>)
    requires
        s.stage == SubmitStage::Finished,
    ensures
        forall|i: int| 0 <= i < events.len() ==> #[trigger] submit_trace(s, events)[i]
            == SubmitAction::Idle,
    decreases events.len(),
{
    submit_trace_len(s, events);
    if events.len() > 0 {
        trace_unfold(s, events);
        finished_submission_stays_idle(s, events.skip(1));
        assert forall|i: int| 0 <= i < events.len() implies #[trigger] submit_trace(s, events)[i]
            == SubmitAction::Idle by {
            if i > 0 {
                assert(submit_trace(s, events)[i] == submit_trace(s, events).skip(1)[i - 1]);
            }
        }
    }
}

/// Nothing is estimated, fetched or submitted before the wallet is built
/// and the fee settled: from a fresh submission, a wallet failure ends it,
/// and otherwise the fee is settled first.
pub proof fn wallet_and_fee_come_first(s: SubmitFlow, e: SubmitEvent)
    requires
        s.stage == SubmitStage::AwaitWallet,
    ensures
        submit_next(s, e).1 is Finish || submit_next(s, e).1 is SettleFee || submit_next(s, e).1
            is Idle,
        submit_next(s, e).1 is Idle ==> submit_next(s, e).0 == s,
{
}

/// Where the fee is fixed, every submission carries exactly that fee.
pub proof fn configured_fee_is_submitted(s: SubmitFlow, events: Seq<SubmitEvent>, w: [u64; 4])
    requires
        submit_flow_wf(s),
        s.fee == Some(MaxFee::Fixed(w)),
    ensures
        forall|i: int| 0 <= i < events.len() ==> (#[trigger] submit_trace(s, events)[i] matches
            SubmitAction::Submit { max_fee, .. } ==> max_fee == w),
    decreases events.len(),
{
    submit_trace_len(s, events);
    if events.len() > 0 {
        trace_unfold(s, events);
        submit_next_keeps_wf(s, events[0]);
        configured_fee_is_submitted(submit_next(s, events[0]).0, events.skip(1), w);
        assert forall|i: int| 0 <= i < events.len() implies (#[trigger] submit_trace(
            s,
            events,
        )[i] matches SubmitAction::Submit { max_fee, .. } ==> max_fee == w) by {
            if i > 0 {
                assert(submit_trace(s, events)[i] == submit_trace(s, events).skip(1)[i - 1]);
            }
        }
    }
}

/// Settling a fixed fee makes it the fee of the submission: no estimate is
/// asked for, and every submission that follows carries that fee.
pub proof fn settled_fixed_fee_is_submitted(s: SubmitFlow, w: [u64; 4], rest: Seq<SubmitEvent>)
    requires
        submit_flow_wf(s),
        s.stage == SubmitStage::AwaitFeeSettings,
    ensures
        ({
            let t = submit_trace(s, seq![SubmitEvent::FeeSettled(MaxFee::Fixed(w))] + rest);
            &&& t[0] == SubmitAction::FetchNonce
            &&& forall|i: int| 0 <= i < t.len() ==> (#[trigger] t[i] matches SubmitAction::Submit {
                max_fee,
                ..
            } ==> max_fee == w)
        }),
{
    let events = seq![SubmitEvent::FeeSettled(MaxFee::Fixed(w))] + rest;
    trace_unfold(s, events);
    assert(events.skip(1) =~= rest);
    submit_next_keeps_wf(s, events[0]);
    let t = submit_next(s, events[0]).0;
    configured_fee_is_submitted(t, rest, w);
    assert forall|i: int| 0 <= i < events.len() implies (#[trigger] submit_trace(s, events)[i] matches
        SubmitAction::Submit { max_fee, .. } ==> max_fee == w) by {
        if i > 0 {
            assert(submit_trace(s, events)[i] == submit_trace(s, events).skip(1)[i - 1]);
        }
    }
}

/// Once the fee in force is known (from fetching the nonce on), every
/// submission carries it.
proof fn fee_in_force_is_submitted(s: SubmitFlow, events: Seq<SubmitEvent>)
    requires
        s.stage == SubmitStage::AwaitNonce || s.stage == SubmitStage::AwaitSubmission || s.stage
            == SubmitStage::Finished,
    ensures
        forall|i: int| 0 <= i < events.len() ==> (#[trigger] submit_trace(s, events)[i] matches
            SubmitAction::Submit { max_fee, .. } ==> max_fee == s.max_fee),
    decreases events.len(),
{
    submit_trace_len(s, events);
    if events.len() > 0 {
        trace_unfold(s, events);
        fee_in_force_is_submitted(submit_next(s, events[0]).0, events.skip(1));
        assert forall|i: int| 0 <= i < events.len() implies (#[trigger] submit_trace(
            s,
            events,
        )[i] matches SubmitAction::Submit { max_fee, .. } ==> max_fee == s.max_fee) by {
            if i > 0 {
                assert(submit_trace(s, events)[i] == submit_trace(s, events).skip(1)[i - 1]);
            }
        }
    }
}

/// Where the fee is to be estimated, the estimate is the fee in force: once
/// an estimate `w` arrives the nonce is fetched, and every submission that
/// follows carries `w`, whatever fee the flow held before.
pub proof fn estimated_fee_is_submitted(s: SubmitFlow, w: [u64; 4], rest: Seq<SubmitEvent>)
    requires
        s.stage == SubmitStage::AwaitFee,
    ensures
        ({
            let t = submit_trace(s, seq![SubmitEvent::FeeEstimated(Ok(w))] + rest);
            &&& t[0] == SubmitAction::FetchNonce
            &&& forall|i: int| 0 <= i < t.len() ==> (#[trigger] t[i] matches SubmitAction::Submit {
                max_fee,
                ..
            } ==> max_fee == w)
        }),
{
    let events = seq![SubmitEvent::FeeEstimated(Ok(w))] + rest;
    trace_unfold(s, events);
    assert(events.skip(1) =~= rest);
    let t = submit_next(s, events[0]).0;
    assert(t.max_fee == w);
    fee_in_force_is_submitted(t, rest);
    assert forall|i: int| 0 <= i < events.len() implies (#[trigger] submit_trace(s, events)[i] matches
        SubmitAction::Submit { max_fee, .. } ==> max_fee == w) by {
        if i > 0 {
            assert(submit_trace(s, events)[i] == submit_trace(s, events).skip(1)[i - 1]);
        }
    }
}

/// A whole submission with an estimated fee: after the wallet is built and
/// an estimate is settled on (`instant` or not), the fee `w` estimated is
/// the one the proof is submitted with, together with the nonce `n`
/// fetched, in the flow's mode.
pub proof fn estimated_submission_run(s: SubmitFlow, instant: bool, w: [u64; 4], n: [u64; 4])
    requires
        s.stage == SubmitStage::AwaitWallet,
    ensures
        ({
            let settled = if instant {
                MaxFee::EstimateInstant
            } else {
                MaxFee::EstimateDefault
            };
            let t = submit_trace(
                s,
                seq![
                    SubmitEvent::WalletBuilt(Ok(())),
                    SubmitEvent::FeeSettled(settled),
                    SubmitEvent::FeeEstimated(Ok(w)),
                    SubmitEvent::NonceFetched(Some(n)),
                ],
            );
            &&& t.len() == 4
            &&& t[0] == SubmitAction::SettleFee
            &&& t[1] == SubmitAction::EstimateFee { instant }
            &&& t[2] == SubmitAction::FetchNonce
            &&& t[3] == SubmitAction::Submit { mode: s.mode, max_fee: w, nonce: n }
        }),
{
    let settled = if instant {
        MaxFee::EstimateInstant
    } else {
        MaxFee::EstimateDefault
    };
    let e0 = seq![
        SubmitEvent::WalletBuilt(Ok(())),
        SubmitEvent::FeeSettled(settled),
        SubmitEvent::FeeEstimated(Ok(w)),
        SubmitEvent::NonceFetched(Some(n)),
    ];
    trace_unfold(s, e0);
    let s1 = submit_next(s, e0[0]).0;
    let e1 = e0.skip(1);
    trace_unfold(s1, e1);
    let s2 = submit_next(s1, e1[0]).0;
    let e2 = e1.skip(1);
    trace_unfold(s2, e2);
    let s3 = submit_next(s2, e2[0]).0;
    let e3 = e2.skip(1);
    trace_unfold(s3, e3);
    let t = submit_trace(s, e0);
    let t1 = submit_trace(s1, e1);
    let t2 = submit_trace(s2, e2);
    assert(t[1] == t.skip(1)[0]);
    assert(t[2] == t.skip(1)[1]);
    assert(t[3] == t.skip(1)[2]);
    assert(t1[1] == t1.skip(1)[0]);
    assert(t1[2] == t1.skip(1)[1]);
    assert(t2[1] == t2.skip(1)[0]);
}

/// Whether action `a`, taken on event `e` in a submission in `mode`, is
/// either no submission, or one in that mode with the nonce `e` fetched.
pub open spec fn submits_fetched_nonce(a: SubmitAction, e: SubmitEvent, mode: SubmissionMode) -> bool {
    match a {
        SubmitAction::Submit { mode: m, nonce, .. } => m == mode && match e {
            SubmitEvent::NonceFetched(Some(n)) => nonce == n,
            _ => false,
        },
        _ => true,
    }
}

/// Every submission happens on fetching the nonce, carries that nonce, and
/// goes in the submission's mode.
pub proof fn submission_uses_fetched_nonce(s: SubmitFlow, events: Seq<SubmitEvent>)
    ensures
        forall|i: int| 0 <= i < events.len() ==> submits_fetched_nonce(
            #[trigger] submit_trace(s, events)[i],
            events[i],
            s.mode,
        ),
    decreases events.len(),
{
    submit_trace_len(s, events);
    if events.len() > 0 {
        trace_unfold(s, events);
        submission_uses_fetched_nonce(submit_next(s, events[0]).0, events.skip(1));
        assert forall|i: int| 0 <= i < events.len() implies submits_fetched_nonce(
            #[trigger] submit_trace(s, events)[i],
            events[i],
            s.mode,
        ) by {
            if i > 0 {
                assert(events[i] == events.skip(1)[i - 1]);
                assert(submit_trace(s, events)[i] == submit_trace(s, events).skip(1)[i - 1]);
            }
        }
    }
}

// ---------------------------------------------------------------------------
// Polling
// ---------------------------------------------------------------------------
/// Where a polling submission stands.
#[derive(Debug, Clone, Copy, PartialEq, Eq)]
pub enum PollStage {
    /// Waiting for the submission to end.
    Submitting,
    /// Waiting for a reading of the time elapsed.
    Checking,
    /// Waiting for the answer of a poll.
    AwaitPoll,
    /// Waiting for the sleep between polls to end.
    Sleeping,
    /// Nothing more to do.
    Finished,
}

/// A polling submission in progress.
#[derive(Debug, Clone, Copy, PartialEq, Eq)]
pub struct PollFlow {
    pub stage: PollStage,
    /// The polls made so far.
    pub polls: u32,
    pub config: PollingConfig,
}

/// The times of a polling run in seconds, as the caller renders them.
#[derive(Debug, PartialEq, Eq)]
pub struct PollTiming {
    /// Since the submission started.
    pub total_secs: String,
    /// Taken by the submission.
    pub submit_secs: String,
    /// Since polling started.
    pub poll_secs: String,
}

/// What came of the last action of a polling submission.
#[derive(Debug)]
pub enum PollEvent {
    /// How the submission ended.
    Submitted(Result<(), String>),
    /// The time elapsed since the submission started, and its rendering.
    Clock { elapsed_nanos: u128, timing: PollTiming },
    /// What a poll answered.
    Answered(PollOutcome),
    /// The sleep between polls ended.
    Woke,
}

/// Why a polling submission failed.
#[derive(Debug, PartialEq, Eq)]
pub enum PollFailure {
    /// The submission failed.
    Submission(String),
    /// The timeout passed after `polls` polls.
    TimedOut { polls: u32, timing: PollTiming },
}

/// What the caller does next in a polling submission.
#[derive(Debug, PartialEq, Eq)]
pub enum PollStep {
    /// Submit the proof.
    Submit,
    /// Read the time elapsed since the submission started.
    ReadClock,
    /// Ask whether the proof is verified; this is poll number `attempt`.
    Poll { attempt: u32 },
    /// Sleep this many seconds.
    Sleep { secs: u64 },
    /// The submission is over, with this outcome.
    Finish(Result<(), PollFailure>),
    /// Nothing: the event does not fit where the submission stands.
    Idle,
}

impl PollFailure {
    /// The error text of the failure.
    pub open spec fn text(self) -> Seq<char> {
        match self {
            PollFailure::Submission(e) => e@,
            PollFailure::TimedOut { polls, timing } => "Verification polling timed out after "@
                + timing.total_secs@ + "s ("@ + decimal(polls as nat) + " polls). Submit time: "@
                + timing.submit_secs@ + "s, Poll time: "@ + timing.poll_secs@ + "s"@,
        }
    }

    /// The error text of the failure.
    pub fn message(&self) -> (m: String)
        ensures
            m@ == self.text(),
    {
        match self {
            PollFailure::Submission(e) => e.as_str().to_owned(),
            PollFailure::TimedOut { polls, timing } => {
                let mut m = labelled("Verification polling timed out after ", timing.total_secs.as_str());
                m.append("s (");
                push_decimal(&mut m, *polls as u128);
                m.append(" polls). Submit time: ");
                m.append(timing.submit_secs.as_str());
                m.append("s, Poll time: ");
                m.append(timing.poll_secs.as_str());
                m.append("s");
                m
            },
        }
    }
}

/// Starts a polling submission: the caller submits the proof, once.
pub fn begin_polling(config: PollingConfig) -> (r: (PollFlow, PollStep))
    ensures
        r.0 == (PollFlow { stage: PollStage::Submitting, polls: 0, config }),
        r.1 == PollStep::Submit,
{
    (PollFlow { stage: PollStage::Submitting, polls: 0, config }, PollStep::Submit)
}

/// `s` moved to `stage`.
pub open spec fn poll_at(s: PollFlow, stage: PollStage) -> PollFlow {
    PollFlow { stage, ..s }
}

/// One step of a polling submission: the next flow and action for `e`.
pub open spec fn poll_next(s: PollFlow, e: PollEvent) -> (PollFlow, PollStep) {
    match (s.stage, e) {
        (PollStage::Submitting, PollEvent::Submitted(Err(x))) => (
            poll_at(s, PollStage::Finished),
            PollStep::Finish(Err(PollFailure::Submission(x))),
        ),
        (PollStage::Submitting, PollEvent::Submitted(Ok(()))) => (
            poll_at(s, PollStage::Checking),
            PollStep::ReadClock,
        ),
        (PollStage::Checking, PollEvent::Clock { elapsed_nanos, timing }) => if elapsed_nanos
            >= nanos_of_secs(s.config.timeout_secs) {
            (
                poll_at(s, PollStage::Finished),
                PollStep::Finish(Err(PollFailure::TimedOut { polls: s.polls, timing })),
            )
        } else {
            (
                PollFlow { stage: PollStage::AwaitPoll, polls: (s.polls + 1) as u32, ..s },
                PollStep::Poll { attempt: (s.polls + 1) as u32 },
            )
        },
        (PollStage::AwaitPoll, PollEvent::Answered(PollOutcome::Verified)) => (
            poll_at(s, PollStage::Finished),
            PollStep::Finish(Ok(())),
        ),
        (PollStage::AwaitPoll, PollEvent::Answered(_)) => (
            poll_at(s, PollStage::Sleeping),
            PollStep::Sleep { secs: s.config.poll_interval_secs },
        ),
        (PollStage::Sleeping, PollEvent::Woke) => (
            poll_at(s, PollStage::Checking),
            PollStep::ReadClock,
        ),
        _ => (s, PollStep::Idle),
    }
}

/// Advances a polling submission by what came of its last action: a failed
/// submission ends it with that failure and no poll; after a successful one,
/// each round reads the clock, times out once the timeout has passed, and
/// otherwise polls; a verified proof ends it, while a proof not verified yet
/// or a failed poll leads to a sleep of the polling interval and a new round.
pub fn poll_step(s: PollFlow, e: PollEvent) -> (r: (PollFlow, PollStep))
    requires
        s.stage == PollStage::Checking ==> s.polls < u32::MAX,
    ensures
        r == poll_next(s, e),
{
    match (s.stage, e) {
        (PollStage::Submitting, PollEvent::Submitted(Err(x))) => (
            PollFlow { stage: PollStage::Finished, ..s },
            PollStep::Finish(Err(PollFailure::Submission(x))),
        ),
        (PollStage::Submitting, PollEvent::Submitted(Ok(()))) => (
            PollFlow { stage: PollStage::Checking, ..s },
            PollStep::ReadClock,
        ),
        (PollStage::Checking, PollEvent::Clock { elapsed_nanos, timing }) => {
            match next_poll(&s.config, elapsed_nanos, s.polls) {
                PollAction::TimedOut { polls } => (
                    PollFlow { stage: PollStage::Finished, ..s },
                    PollStep::Finish(Err(PollFailure::TimedOut { polls, timing })),
                ),
                PollAction::Poll { attempt } => (
                    PollFlow { stage: PollStage::AwaitPoll, polls: attempt, ..s },
                    PollStep::Poll { attempt },
                ),
            }
        },
        (PollStage::AwaitPoll, PollEvent::Answered(outcome)) => {
            match after_poll(&s.config, &outcome) {
                AfterPoll::Done => (PollFlow { stage: PollStage::Finished, ..s }, PollStep::Finish(Ok(()))),
                AfterPoll::Sleep { secs } => (
                    PollFlow { stage: PollStage::Sleeping, ..s },
                    PollStep::Sleep { secs },
                ),
            }
        },
        (PollStage::Sleeping, PollEvent::Woke) => (
            PollFlow { stage: PollStage::Checking, ..s },
            PollStep::ReadClock,
        ),
        _ => (s, PollStep::Idle),
    }
}

/// The actions a polling submission takes for a run of events.
pub open spec fn poll_trace(s: PollFlow, events: Seq<PollEvent>) -> Seq<PollStep>
    decreases events.len(),
{
    if events.len() == 0 {
        Seq::empty()
    } else {
        seq![poll_next(s, events[0]).1] + poll_trace(poll_next(s, events[0]).0, events.skip(1))
    }
}

proof fn poll_trace_len(s: PollFlow, events: Seq<PollEvent>)
    ensures
        poll_trace(s, events).len() == events.len(),
    decreases events.len(),
{
    if events.len() > 0 {
        poll_trace_len(poll_next(s, events[0]).0, events.skip(1));
    }
}

proof fn poll_trace_unfold(s: PollFlow, events: Seq<PollEvent>)
    requires
        events.len() > 0,
    ensures
        poll_trace(s, events).len() == events.len(),
        poll_trace(s, events)[0] == poll_next(s, events[0]).1,
        forall|i: int| 0 < i < events.len() ==> #[trigger] poll_trace(s, events)[i] == poll_trace(
            poll_next(s, events[0]).0,
            events.skip(1),
        )[i - 1],
{
    poll_trace_len(poll_next(s, events[0]).0, events.skip(1));
}

/// A polling submission never submits again: after the one submission it
/// starts with, no event leads to another.
pub proof fn polling_never_resubmits(s: PollFlow, events: Seq<PollEvent>)
    ensures
        forall|i: int| 0 <= i < events.len() ==> !(#[trigger] poll_trace(s, events)[i] is Submit),
    decreases events.len(),
{
    poll_trace_len(s, events);
    if events.len() > 0 {
        poll_trace_unfold(s, events);
        polling_never_resubmits(poll_next(s, events[0]).0, events.skip(1));
    }
}

/// Once a polling submission is over, no event makes it act again.
pub proof fn finished_polling_stays_idle(s: PollFlow, events: Seq<PollEvent>)
    requires
        s.stage == PollStage::Finished,
    ensures
        forall|i: int| 0 <= i < events.len() ==> #[trigger] poll_trace(s, events)[i]
            == PollStep::Idle,
    decreases events.len(),
{
    poll_trace_len(s, events);
    if events.len() > 0 {
        poll_trace_unfold(s, events);
        finished_polling_stays_idle(s, events.skip(1));
    }
}

/// A failed submission is handed back at once, with its error, and nothing
/// is polled after it.
pub proof fn failed_submission_is_not_polled(c: PollingConfig, x: String, rest: Seq<PollEvent>)
    ensures
        ({
            let s = PollFlow { stage: PollStage::Submitting, polls: 0, config: c };
            let t = poll_trace(s, seq![PollEvent::Submitted(Err(x))] + rest);
            &&& t[0] == PollStep::Finish(Err(PollFailure::Submission(x)))
            &&& forall|i: int| 1 <= i < t.len() ==> #[trigger] t[i] == PollStep::Idle
        }),
{
    let s = PollFlow { stage: PollStage::Submitting, polls: 0, config: c };
    let events = seq![PollEvent::Submitted(Err(x))] + rest;
    poll_trace_unfold(s, events);
    assert(events.skip(1) =~= rest);
    finished_polling_stays_idle(poll_next(s, events[0]).0, rest);
}

/// A polling submission succeeds only on a poll that answered that the
/// proof is verified.
pub proof fn polling_succeeds_only_when_verified(s: PollFlow, events: Seq<PollEvent>)
    ensures
        forall|i: int| 0 <= i < events.len() ==> (#[trigger] poll_trace(s, events)[i] matches PollStep::Finish(Ok(()))
            ==> events[i] matches PollEvent::Answered(PollOutcome::Verified)),
    decreases events.len(),
{
    poll_trace_len(s, events);
    if events.len() > 0 {
        poll_trace_unfold(s, events);
        polling_succeeds_only_when_verified(poll_next(s, events[0]).0, events.skip(1));
        assert forall|i: int| 0 <= i < events.len() implies (#[trigger] poll_trace(s, events)[i] matches PollStep::Finish(Ok(()))
            ==> events[i] matches PollEvent::Answered(PollOutcome::Verified)) by {
            if i > 0 {
                assert(events[i] == events.skip(1)[i - 1]);
            }
        }
    }
}

/// A polling submission gives up only on a clock reading at or past the
/// timeout, with the number of polls made so far.
pub proof fn polling_times_out_only_past_timeout(s: PollFlow, e: PollEvent)
    ensures
        poll_next(s, e).1 matches PollStep::Finish(Err(PollFailure::TimedOut { polls, .. })) ==> (
        e matches PollEvent::Clock { elapsed_nanos, .. } && elapsed_nanos >= nanos_of_secs(
            s.config.timeout_secs,
        ) && polls == s.polls),
{
}

/// Whether `e` is the kind of event a polling submission at `stage` waits
/// for: the end of the submission, a clock reading, a poll's answer, or the
/// end of a sleep.
pub open spec fn poll_event_fits(stage: PollStage, e: PollEvent) -> bool {
    match (stage, e) {
        (PollStage::Submitting, PollEvent::Submitted(_)) => true,
        (PollStage::Checking, PollEvent::Clock { .. }) => true,
        (PollStage::AwaitPoll, PollEvent::Answered(_)) => true,
        (PollStage::Sleeping, PollEvent::Woke) => true,
        _ => false,
    }
}

/// A polling submission never stalls: every event it waits for makes it
/// act, until it is over.
pub proof fn polling_never_stalls(s: PollFlow, e: PollEvent)
    requires
        poll_event_fits(s.stage, e),
    ensures
        !(poll_next(s, e).1 is Idle),
{
}

/// A poll that does not find the proof verified (not yet, or a failed
/// check) is followed by a sleep of the polling interval, then a clock
/// reading, then (before the timeout) the next poll.
pub proof fn unverified_poll_leads_to_next_poll(
    s: PollFlow,
    outcome: PollOutcome,
    elapsed_nanos: u128,
    timing: PollTiming,
)
    requires
        s.stage == PollStage::AwaitPoll,
        !(outcome is Verified),
        elapsed_nanos < nanos_of_secs(s.config.timeout_secs),
    ensures
        ({
            let t = poll_trace(
                s,
                seq![
                    PollEvent::Answered(outcome),
                    PollEvent::Woke,
                    PollEvent::Clock { elapsed_nanos, timing },
                ],
            );
            &&& t.len() == 3
            &&& t[0] == PollStep::Sleep { secs: s.config.poll_interval_secs }
            &&& t[1] == PollStep::ReadClock
            &&& t[2] == PollStep::Poll { attempt: (s.polls + 1) as u32 }
        }),
{
    let e0 = seq![
        PollEvent::Answered(outcome),
        PollEvent::Woke,
        PollEvent::Clock { elapsed_nanos, timing },
    ];
    poll_trace_unfold(s, e0);
    let s1 = poll_next(s, e0[0]).0;
    let e1 = e0.skip(1);
    poll_trace_unfold(s1, e1);
    let s2 = poll_next(s1, e1[0]).0;
    let e2 = e1.skip(1);
    poll_trace_unfold(s2, e2);
    assert(s1.stage == PollStage::Sleeping && s1.polls == s.polls && s1.config == s.config);
    assert(s2.stage == PollStage::Checking && s2.polls == s.polls && s2.config == s.config);
}

/// Once the proof is submitted, polling starts: the clock is read, and
/// before the timeout the first poll is made.
pub proof fn submitted_proof_is_polled(s: PollFlow, elapsed_nanos: u128, timing: PollTiming)
    requires
        s.stage == PollStage::Submitting,
        elapsed_nanos < nanos_of_secs(s.config.timeout_secs),
    ensures
        ({
            let t = poll_trace(
                s,
                seq![PollEvent::Submitted(Ok(())), PollEvent::Clock { elapsed_nanos, timing }],
            );
            &&& t.len() == 2
            &&& t[0] == PollStep::ReadClock
            &&& t[1] == PollStep::Poll { attempt: (s.polls + 1) as u32 }
        }),
{
    let e0 = seq![PollEvent::Submitted(Ok(())), PollEvent::Clock { elapsed_nanos, timing }];
    poll_trace_unfold(s, e0);
    let s1 = poll_next(s, e0[0]).0;
    let e1 = e0.skip(1);
    poll_trace_unfold(s1, e1);
    assert(s1.stage == PollStage::Checking && s1.polls == s.polls && s1.config == s.config);
}

} // verus!
