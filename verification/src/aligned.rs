//! Submitting Mina proofs to Aligned: submission modes, the polling
//! schedule, the verification data sent to the batcher, its size limit, the
//! batcher fee choice and the interpretation of on-chain verification checks.
use vstd::prelude::*;
use vstd::string::StringExecFns;

use crate::constants::{ANVIL_CHAIN_ID, HOODI_CHAIN_ID, SEPOLIA_CHAIN_ID};
use crate::evm::{keccak256, keccak256_digest, limbs_value, parse_u256, u256_from_hex, u256_hex_error};
use crate::rpcs::aligned::AlignedNetwork;
use crate::rpcs::error::{labelled, Error};
use crate::rpcs::eth_errors::EthError;
use crate::rpcs::errors::{
    classify_verification_error, verification_classified, AlignedError, VerificationError,
};
use crate::text::{
    decimal, lowercase, parse_u64, parse_u64_result, push_decimal, str_eq, to_lowercase,
};

verus! {

// ---------------------------------------------------------------------------
// Submission mode
// ---------------------------------------------------------------------------
/// Submission mode for the Aligned verification layer.
#[derive(Debug, Clone, Copy, PartialEq, Eq)]
pub enum SubmissionMode {
    /// Submit and wait for verification over the batcher's websocket.
    SubmitAndWait,
    /// Submit, then poll whether the proof is verified.
    SubmitWithPolling,
}

impl Default for SubmissionMode {
    fn default() -> (m: Self)
        ensures
            m == SubmissionMode::SubmitAndWait,
    {
        SubmissionMode::SubmitAndWait
    }
}

/// The mode a lowercased mode name selects.
pub open spec fn mode_named(lower: Seq<char>) -> Option<SubmissionMode> {
    if lower == "submit_and_wait"@ || lower == "default"@ || lower == ""@ {
        Some(SubmissionMode::SubmitAndWait)
    } else if lower == "submit_with_polling"@ || lower == "polling"@ {
        Some(SubmissionMode::SubmitWithPolling)
    } else {
        None
    }
}

impl SubmissionMode {
    /// Parses a mode name, case-insensitively: `submit_and_wait`, `default`
    /// or the empty string select submit-and-wait; `submit_with_polling` or
    /// `polling` select polling.
    pub fn parse(s: &str) -> (r: Result<SubmissionMode, String>)
        ensures
            mode_named(lowercase(s@)) matches Some(m) ==> r == Ok::<SubmissionMode, String>(m),
            mode_named(lowercase(s@)) is None ==> (r matches Err(e) && e@
                == "Unknown submission mode: '"@ + s@
                + "'. Valid values: 'submit_and_wait', 'submit_with_polling'"@),
    {
        let lower = to_lowercase(s);
        let l = lower.as_str();
        if str_eq(l, "submit_and_wait") || str_eq(l, "default") || str_eq(l, "") {
            Ok(SubmissionMode::SubmitAndWait)
        } else if str_eq(l, "submit_with_polling") || str_eq(l, "polling") {
            Ok(SubmissionMode::SubmitWithPolling)
        } else {
            let mut e = labelled("Unknown submission mode: '", s);
            e.append("'. Valid values: 'submit_and_wait', 'submit_with_polling'");
            Err(e)
        }
    }
}

impl std::str::FromStr for SubmissionMode {
    type Err = String;

    fn from_str(s: &str) -> (r: Result<SubmissionMode, String>)
        ensures
            mode_named(lowercase(s@)) matches Some(m) ==> r == Ok::<SubmissionMode, String>(m),
            mode_named(lowercase(s@)) is None ==> (r matches Err(e) && e@
                == "Unknown submission mode: '"@ + s@
                + "'. Valid values: 'submit_and_wait', 'submit_with_polling'"@),
    {
        SubmissionMode::parse(s)
    }
}

/// The submission mode selected by the `ALIGNED_SUBMISSION_MODE` variable
/// (`None` when it is unset): its parsed value, or the default when it is
/// unset or invalid.
pub fn get_submission_mode_from_env(value: Option<&str>) -> (m: SubmissionMode)
    ensures
        match value {
            Some(s) => match mode_named(lowercase(s@)) {
                Some(n) => m == n,
                None => m == SubmissionMode::SubmitAndWait,
            },
            None => m == SubmissionMode::SubmitAndWait,
        },
{
    match value {
        Some(s) => match SubmissionMode::parse(s) {
            Ok(m) => m,
            Err(_) => SubmissionMode::default(),
        },
        None => SubmissionMode::default(),
    }
}

// ---------------------------------------------------------------------------
// Polling
// ---------------------------------------------------------------------------
/// Configuration of the polling submission mode, in whole seconds.
#[derive(Debug, Clone, Copy, PartialEq, Eq)]
pub struct PollingConfig {
    /// Interval between polling attempts.
    pub poll_interval_secs: u64,
    /// Maximum time to wait for verification before timing out.
    pub timeout_secs: u64,
}

/// The default polling interval.
pub const DEFAULT_POLL_INTERVAL_SECS: u64 = 10;

/// The default polling timeout (10 minutes).
pub const DEFAULT_POLL_TIMEOUT_SECS: u64 = 600;

impl Default for PollingConfig {
    fn default() -> (c: Self)
        ensures
            c.poll_interval_secs == DEFAULT_POLL_INTERVAL_SECS,
            c.timeout_secs == DEFAULT_POLL_TIMEOUT_SECS,
    {
        PollingConfig {
            poll_interval_secs: DEFAULT_POLL_INTERVAL_SECS,
            timeout_secs: DEFAULT_POLL_TIMEOUT_SECS,
        }
    }
}

/// A number of seconds read from an optional variable: its value when it
/// parses as a `u64`, else `default`.
pub open spec fn secs_or(value: Option<Seq<char>>, default: u64) -> u64 {
    match value {
        Some(s) => match parse_u64_result(s) {
            Ok(n) => n,
            Err(_) => default,
        },
        None => default,
    }
}

/// An optional string slice's view.
pub open spec fn opt_seq(value: Option<&str>) -> Option<Seq<char>> {
    match value {
        Some(s) => Some(s@),
        None => None,
    }
}

fn secs_from_var(value: Option<&str>, default: u64) -> (n: u64)
    ensures
        n == secs_or(opt_seq(value), default),
{
    match value {
        Some(s) => match parse_u64(s) {
            Ok(n) => n,
            Err(_) => default,
        },
        None => default,
    }
}

impl PollingConfig {
    /// The polling configuration given the values of
    /// `ALIGNED_POLL_INTERVAL_SECS` and `ALIGNED_POLL_TIMEOUT_SECS`; each
    /// falls back to its default when unset or not a number.
    pub fn from_env(poll_interval: Option<&str>, timeout: Option<&str>) -> (c: PollingConfig)
        ensures
            c.poll_interval_secs == secs_or(opt_seq(poll_interval), DEFAULT_POLL_INTERVAL_SECS),
            c.timeout_secs == secs_or(opt_seq(timeout), DEFAULT_POLL_TIMEOUT_SECS),
    {
        PollingConfig {
            poll_interval_secs: secs_from_var(poll_interval, DEFAULT_POLL_INTERVAL_SECS),
            timeout_secs: secs_from_var(timeout, DEFAULT_POLL_TIMEOUT_SECS),
        }
    }
}

/// What the polling loop does next.
#[derive(Debug, Clone, Copy, PartialEq, Eq)]
pub enum PollAction {
    /// The timeout has passed: give up after this many polls.
    TimedOut { polls: u32 },
    /// Ask whether the proof is verified; this is poll number `attempt`.
    Poll { attempt: u32 },
}

/// What came back from one verification poll.
#[derive(Debug, Clone)]
pub enum PollOutcome {
    /// The proof is verified.
    Verified,
    /// The proof is not verified yet.
    NotYet,
    /// The check failed; carries the failure's text.
    Failed(String),
}

/// What the polling loop does after a poll.
#[derive(Debug, Clone, Copy, PartialEq, Eq)]
pub enum AfterPoll {
    /// The proof is verified: stop.
    Done,
    /// Sleep this many seconds and decide again.
    Sleep { secs: u64 },
}

/// The nanoseconds in `secs` seconds.
pub open spec fn nanos_of_secs(secs: u64) -> int {
    secs * 1_000_000_000
}

/// Decides the next step of the polling loop given the time elapsed since
/// submission started (in nanoseconds) and the polls made so far: time out
/// once the elapsed time reaches the timeout, otherwise make the next poll.
pub fn next_poll(config: &PollingConfig, elapsed_nanos: u128, polls: u32) -> (a: PollAction)
    requires
        polls < u32::MAX,
    ensures
        elapsed_nanos >= nanos_of_secs(config.timeout_secs) ==> a == (PollAction::TimedOut {
            polls,
        }),
        elapsed_nanos < nanos_of_secs(config.timeout_secs) ==> a == (PollAction::Poll {
            attempt: (polls + 1) as u32,
        }),
{
    let timeout_nanos = config.timeout_secs as u128 * 1_000_000_000;
    if elapsed_nanos >= timeout_nanos {
        PollAction::TimedOut { polls }
    } else {
        PollAction::Poll { attempt: polls + 1 }
    }
}

/// Decides what follows a poll: stop once the proof is verified, otherwise
/// (not yet verified, or the check failed and is retried) sleep for the
/// polling interval.
pub fn after_poll(config: &PollingConfig, outcome: &PollOutcome) -> (a: AfterPoll)
    ensures
        outcome is Verified ==> a == AfterPoll::Done,
        !(outcome is Verified) ==> a == (AfterPoll::Sleep { secs: config.poll_interval_secs }),
{
    match outcome {
        PollOutcome::Verified => AfterPoll::Done,
        _ => AfterPoll::Sleep { secs: config.poll_interval_secs },
    }
}

// ---------------------------------------------------------------------------
// Verification data
// ---------------------------------------------------------------------------
/// A Mina proof ready for submission: the serialized proof and its
/// serialized public inputs.
#[derive(Debug)]
pub enum MinaProof {
    /// A proof of state.
    State((Vec<u8>, Vec<u8>)),
    /// A proof of account.
    Account((Vec<u8>, Vec<u8>)),
}

/// The proving systems of the proofs the bridge submits.
#[derive(Debug, Clone, Copy, PartialEq, Eq)]
pub enum ProvingSystemId {
    Mina,
    MinaAccount,
}

/// The data the batcher verifies.
#[derive(Debug, Clone)]
pub struct VerificationData {
    pub proving_system: ProvingSystemId,
    pub proof: Vec<u8>,
    pub pub_input: Option<Vec<u8>>,
    pub verification_key: Option<Vec<u8>>,
    pub vm_program_code: Option<Vec<u8>>,
    pub proof_generator_addr: [u8; 20],
}

/// The verification data for `proof`: its bytes and public inputs, the
/// matching proving system, an empty verification key (so that Aligned
/// commits to the proving system) and no VM program code.
pub open spec fn verification_data_of(
    mina_proof: MinaProof,
    addr: [u8; 20],
    d: VerificationData,
) -> bool {
    &&& (d.verification_key matches Some(vk) && vk@.len() == 0)
    &&& d.vm_program_code is None
    &&& d.proof_generator_addr == addr
    &&& (match mina_proof {
        MinaProof::State((p, i)) => d.proving_system == ProvingSystemId::Mina && d.proof@ == p@
            && (d.pub_input matches Some(x) && x@ == i@),
        MinaProof::Account((p, i)) => d.proving_system == ProvingSystemId::MinaAccount
            && d.proof@ == p@ && (d.pub_input matches Some(x) && x@ == i@),
    })
}

/// The name under which a proof is logged.
pub open spec fn proof_name_of(mina_proof: MinaProof) -> Seq<char> {
    match mina_proof {
        MinaProof::State(_) => "Mina Proof of State"@,
        MinaProof::Account(_) => "Mina Proof of Account"@,
    }
}

/// The file stem under which a proof is saved.
pub open spec fn proof_file_of(mina_proof: MinaProof) -> Seq<char> {
    match mina_proof {
        MinaProof::State(_) => "mina_state"@,
        MinaProof::Account(_) => "mina_account"@,
    }
}

/// A proof prepared for submission.
#[derive(Debug, Clone)]
pub struct PreparedSubmission {
    pub verification_data: VerificationData,
    /// The name under which the proof is logged.
    pub proof_name: String,
    /// The file stem under which the proof is saved when requested.
    pub file_name: String,
}

/// Builds the verification data for a proof generated by `proof_generator`.
pub fn prepare_submission(mina_proof: MinaProof, proof_generator: [u8; 20]) -> (s: PreparedSubmission)
    ensures
        verification_data_of(mina_proof, proof_generator, s.verification_data),
        s.proof_name@ == proof_name_of(mina_proof),
        s.file_name@ == proof_file_of(mina_proof),
{
    let (proving_system, bytes, pub_input, proof_name, file_name) = match mina_proof {
        MinaProof::State((p, i)) => (
            ProvingSystemId::Mina,
            p,
            i,
            "Mina Proof of State".to_owned(),
            "mina_state".to_owned(),
        ),
        MinaProof::Account((p, i)) => (
            ProvingSystemId::MinaAccount,
            p,
            i,
            "Mina Proof of Account".to_owned(),
            "mina_account".to_owned(),
        ),
    };
    PreparedSubmission {
        verification_data: VerificationData {
            proving_system,
            proof: bytes,
            pub_input: Some(pub_input),
            verification_key: Some(Vec::new()),
            vm_program_code: None,
            proof_generator_addr: proof_generator,
        },
        proof_name,
        file_name,
    }
}

/// The chain a wallet is bound to when submitting directly: Devnet, Sepolia
/// and Hoodi have their own chains; any other network falls back to the
/// local Anvil chain.
pub open spec fn submission_chain(n: AlignedNetwork) -> u64 {
    match n {
        AlignedNetwork::Sepolia => SEPOLIA_CHAIN_ID,
        AlignedNetwork::Hoodi => HOODI_CHAIN_ID,
        _ => ANVIL_CHAIN_ID,
    }
}

/// The chain ID the submitting wallet is bound to.
pub fn submission_chain_id(network: &AlignedNetwork) -> (id: u64)
    ensures
        id == submission_chain(*network),
{
    match network {
        AlignedNetwork::Devnet => ANVIL_CHAIN_ID,
        AlignedNetwork::Sepolia => SEPOLIA_CHAIN_ID,
        AlignedNetwork::Hoodi => HOODI_CHAIN_ID,
        _ => ANVIL_CHAIN_ID,
    }
}

// ---------------------------------------------------------------------------
// Batcher fee
// ---------------------------------------------------------------------------
/// Where the maximum batcher fee comes from.
#[derive(Debug, Clone, Copy, PartialEq, Eq)]
pub enum MaxFeeSource {
    /// The SDK's default fee estimate.
    EstimateDefault,
    /// The SDK's instant fee estimate.
    EstimateInstant,
    /// A fee given explicitly in configuration.
    Custom,
}

/// The fee source selected by a fee type: `0` default estimate, `1` instant
/// estimate, `2` custom.
pub open spec fn fee_source_named(t: Seq<char>) -> Option<MaxFeeSource> {
    if t == "0"@ {
        Some(MaxFeeSource::EstimateDefault)
    } else if t == "1"@ {
        Some(MaxFeeSource::EstimateInstant)
    } else if t == "2"@ {
        Some(MaxFeeSource::Custom)
    } else {
        None
    }
}

fn fee_source(t: &str) -> (r: Option<MaxFeeSource>)
    ensures
        r == fee_source_named(t@),
{
    if str_eq(t, "0") {
        Some(MaxFeeSource::EstimateDefault)
    } else if str_eq(t, "1") {
        Some(MaxFeeSource::EstimateInstant)
    } else if str_eq(t, "2") {
        Some(MaxFeeSource::Custom)
    } else {
        None
    }
}

/// The maximum batcher fee of a submission.
#[derive(Debug, Clone, Copy, PartialEq, Eq)]
pub enum MaxFee {
    /// Ask the SDK for its default fee estimate.
    EstimateDefault,
    /// Ask the SDK for its instant fee estimate.
    EstimateInstant,
    /// A fixed fee given in configuration, as little-endian 64-bit limbs.
    Fixed([u64; 4]),
}

/// Why a direct submission's fee configuration stops the program.
#[derive(Debug, Clone, Copy, PartialEq, Eq)]
pub enum FeeConfigFault {
    /// `BATCHER_MAX_FEE` is not a hex 256-bit number.
    UnparsableMaxFee,
    /// The fee type is custom but `BATCHER_MAX_FEE` is zero.
    ZeroCustomFee,
    /// `BATCHER_FEE_ESTM_TYPE` is none of `0`, `1`, `2`.
    UnknownFeeType,
}

/// The text a fee variable falls back to when it is unset.
pub open spec fn or_zero(v: Option<&str>) -> Seq<char> {
    match v {
        Some(s) => s@,
        None => "0"@,
    }
}

/// The fault of the fee variables of a direct submission, `BATCHER_FEE_ESTM_TYPE`
/// and `BATCHER_MAX_FEE` (each `0` when unset), if any: the maximum fee is
/// parsed first, whatever the fee type; then the type must be `0`, `1` or
/// `2`, and with `2` the fee must not be zero.
pub open spec fn batcher_fee_fault_of(fee_type: Option<&str>, max_fee: Option<&str>) -> Option<
    FeeConfigFault,
> {
    match u256_from_hex(or_zero(max_fee)) {
        None => Some(FeeConfigFault::UnparsableMaxFee),
        Some(v) => match fee_source_named(or_zero(fee_type)) {
            None => Some(FeeConfigFault::UnknownFeeType),
            Some(MaxFeeSource::Custom) => if v == 0 {
                Some(FeeConfigFault::ZeroCustomFee)
            } else {
                None
            },
            Some(_) => None,
        },
    }
}

/// Whether `fee` is the maximum fee the fee variables select: `0` and `1`
/// the default and instant estimates, `2` the parsed fee.
pub open spec fn fee_settled(fee: MaxFee, fee_type: Option<&str>, max_fee: Option<&str>) -> bool {
    match fee_source_named(or_zero(fee_type)) {
        Some(MaxFeeSource::EstimateDefault) => fee == MaxFee::EstimateDefault,
        Some(MaxFeeSource::EstimateInstant) => fee == MaxFee::EstimateInstant,
        Some(MaxFeeSource::Custom) => fee matches MaxFee::Fixed(w) && u256_from_hex(or_zero(max_fee))
            == Some(limbs_value(w)),
        None => false,
    }
}

fn settle_batcher_fee(fee_type: Option<&str>, max_fee: Option<&str>) -> (r: Result<
    MaxFee,
    FeeConfigFault,
>)
    ensures
        match batcher_fee_fault_of(fee_type, max_fee) {
            Some(f) => r == Err::<MaxFee, FeeConfigFault>(f),
            None => r matches Ok(fee) && fee_settled(fee, fee_type, max_fee),
        },
{
    let zero = "0";
    proof {
        reveal_strlit("0");
    }
    let f = match max_fee {
        Some(m) => m,
        None => zero,
    };
    let w = match parse_u256(f) {
        Ok(w) => w,
        Err(_) => return Err(FeeConfigFault::UnparsableMaxFee),
    };
    let t = match fee_type {
        Some(t) => t,
        None => zero,
    };
    match fee_source(t) {
        Some(MaxFeeSource::EstimateDefault) => Ok(MaxFee::EstimateDefault),
        Some(MaxFeeSource::EstimateInstant) => Ok(MaxFee::EstimateInstant),
        Some(MaxFeeSource::Custom) => {
            if limbs_zero(&w) {
                Err(FeeConfigFault::ZeroCustomFee)
            } else {
                Ok(MaxFee::Fixed(w))
            }
        },
        None => Err(FeeConfigFault::UnknownFeeType),
    }
}

/// The fault of the fee variables of a direct submission on which the
/// program stops, if any.
pub fn batcher_fee_fault(fee_type: Option<&str>, max_fee: Option<&str>) -> (f: Option<
    FeeConfigFault,
>)
    ensures
        f == batcher_fee_fault_of(fee_type, max_fee),
{
    match settle_batcher_fee(fee_type, max_fee) {
        Ok(_) => None,
        Err(f) => Some(f),
    }
}

/// The maximum fee of a direct submission, from `BATCHER_FEE_ESTM_TYPE` and
/// `BATCHER_MAX_FEE` (each `0` when unset): `0` and `1` select the default
/// and instant estimates, `2` the parsed fee. Fee variables with a fault
/// stop the program and are excluded; `batcher_fee_fault` finds them.
pub fn batcher_max_fee(fee_type: Option<&str>, max_fee: Option<&str>) -> (r: MaxFee)
    requires
        batcher_fee_fault_of(fee_type, max_fee) is None,
    ensures
        fee_settled(r, fee_type, max_fee),
{
    match settle_batcher_fee(fee_type, max_fee) {
        Ok(fee) => fee,
        Err(_) => MaxFee::EstimateDefault,
    }
}

/// Whether four limbs denote zero.
pub fn limbs_zero(w: &[u64; 4]) -> (z: bool)
    ensures
        z == (limbs_value(*w) == 0),
{
    w[0] == 0 && w[1] == 0 && w[2] == 0 && w[3] == 0
}

/// The fee source of the Aligned facade, from `ALIGNED_BATCHER_FEE_TYPE`
/// (unset means `0`); an unknown type is an error.
pub fn aligned_fee_source(fee_type: Option<&str>) -> (r: Result<MaxFeeSource, Error>)
    ensures
        match fee_type {
            None => r == Ok::<MaxFeeSource, Error>(MaxFeeSource::EstimateDefault),
            Some(t) => match fee_source_named(t@) {
                Some(s) => r == Ok::<MaxFeeSource, Error>(s),
                None => r matches Err(e) && e.0@ == "invalid ALIGNED_BATCHER_FEE_TYPE: '"@ + t@
                    + "', expected '0', '1', or '2'"@,
            },
        },
{
    match fee_type {
        None => Ok(MaxFeeSource::EstimateDefault),
        Some(t) => match fee_source(t) {
            Some(s) => Ok(s),
            None => {
                let mut m = labelled("invalid ALIGNED_BATCHER_FEE_TYPE: '", t);
                m.append("', expected '0', '1', or '2'");
                Err(Error(m))
            },
        },
    }
}

/// The custom maximum fee of the Aligned facade, from the outcome of reading
/// `ALIGNED_BATCHER_MAX_FEE`: a read error, a value that is not a hex
/// 256-bit number, and zero are errors; otherwise the parsed number.
pub fn custom_max_fee(raw: Result<String, String>) -> (r: Result<[u64; 4], Error>)
    ensures
        match raw {
            Err(e) => r matches Err(x) && x.0@ == "ALIGNED_BATCHER_MAX_FEE: "@ + e@,
            Ok(s) => match u256_from_hex(s@) {
                None => r matches Err(x) && x.0@ == "invalid ALIGNED_BATCHER_MAX_FEE: "@
                    + u256_hex_error(s@),
                Some(v) => if v == 0 {
                    r matches Err(x) && x.0@
                        == "ALIGNED_BATCHER_MAX_FEE cannot be 0 when ALIGNED_BATCHER_FEE_TYPE is 2"@
                } else {
                    r matches Ok(w) && limbs_value(w) == v
                },
            },
        },
{
    match raw {
        Err(e) => Err(Error(labelled("ALIGNED_BATCHER_MAX_FEE: ", e.as_str()))),
        Ok(s) => match parse_u256(s.as_str()) {
            Err(e) => Err(Error(labelled("invalid ALIGNED_BATCHER_MAX_FEE: ", e.as_str()))),
            Ok(w) => {
                if limbs_zero(&w) {
                    Err(
                        Error(
                            "ALIGNED_BATCHER_MAX_FEE cannot be 0 when ALIGNED_BATCHER_FEE_TYPE is 2".to_owned(),
                        ),
                    )
                } else {
                    Ok(w)
                }
            },
        },
    }
}

/// The maximum fee of the Aligned facade, from `ALIGNED_BATCHER_FEE_TYPE`
/// (unset means `0`) and, for the custom type only, the outcome of reading
/// `ALIGNED_BATCHER_MAX_FEE`: `0` and `1` select an estimate and read no fee;
/// `2` the custom fee; any other type is an error.
pub fn aligned_max_fee(fee_type: Option<&str>, max_fee: Result<String, String>) -> (r: Result<
    MaxFee,
    Error,
>)
    ensures
        match aligned_fee_source_of(fee_type) {
            Err(m) => r matches Err(x) && x.0@ == m,
            Ok(MaxFeeSource::EstimateDefault) => r == Ok::<MaxFee, Error>(MaxFee::EstimateDefault),
            Ok(MaxFeeSource::EstimateInstant) => r == Ok::<MaxFee, Error>(MaxFee::EstimateInstant),
            Ok(MaxFeeSource::Custom) => match raw_custom_fee(max_fee) {
                Err(m) => r matches Err(x) && x.0@ == m,
                Ok(v) => r matches Ok(MaxFee::Fixed(w)) && limbs_value(w) == v,
            },
        },
{
    match aligned_fee_source(fee_type) {
        Err(e) => Err(e),
        Ok(MaxFeeSource::EstimateDefault) => Ok(MaxFee::EstimateDefault),
        Ok(MaxFeeSource::EstimateInstant) => Ok(MaxFee::EstimateInstant),
        Ok(MaxFeeSource::Custom) => match custom_max_fee(max_fee) {
            Err(e) => Err(e),
            Ok(w) => Ok(MaxFee::Fixed(w)),
        },
    }
}

/// The fee source `aligned_fee_source` gives, or the text of its error.
pub open spec fn aligned_fee_source_of(fee_type: Option<&str>) -> Result<MaxFeeSource, Seq<char>> {
    match fee_type {
        None => Ok(MaxFeeSource::EstimateDefault),
        Some(t) => match fee_source_named(t@) {
            Some(s) => Ok(s),
            None => Err("invalid ALIGNED_BATCHER_FEE_TYPE: '"@ + t@ + "', expected '0', '1', or '2'"@),
        },
    }
}

/// The custom fee `custom_max_fee` gives, or the text of its error.
pub open spec fn raw_custom_fee(raw: Result<String, String>) -> Result<int, Seq<char>> {
    match raw {
        Err(e) => Err("ALIGNED_BATCHER_MAX_FEE: "@ + e@),
        Ok(s) => match u256_from_hex(s@) {
            None => Err("invalid ALIGNED_BATCHER_MAX_FEE: "@ + u256_hex_error(s@)),
            Some(v) => if v == 0 {
                Err("ALIGNED_BATCHER_MAX_FEE cannot be 0 when ALIGNED_BATCHER_FEE_TYPE is 2"@)
            } else {
                Ok(v)
            },
        },
    }
}

// ---------------------------------------------------------------------------
// Payload size
// ---------------------------------------------------------------------------
/// The batcher's maximum proof size (4 MiB).
pub const MAX_PROOF_SIZE: usize = 4194304;

/// The CBOR framing overhead added by the batcher.
pub const CBOR_OVERHEAD_BYTES: usize = 1024;

/// The length of an optional byte vector (0 when absent).
pub open spec fn opt_len(v: Option<Vec<u8>>) -> nat {
    match v {
        Some(x) => x@.len(),
        None => 0,
    }
}

/// The upper-bound estimate of the CBOR-encoded size of `d`.
pub open spec fn cbor_size_estimate(d: VerificationData) -> nat {
    d.proof@.len() + opt_len(d.pub_input) + opt_len(d.verification_key) + opt_len(
        d.vm_program_code,
    ) + CBOR_OVERHEAD_BYTES as nat
}

fn opt_len_exec(v: &Option<Vec<u8>>) -> (n: usize)
    ensures
        n == opt_len(*v),
{
    match v {
        Some(x) => x.len(),
        None => 0,
    }
}

/// Returns the upper-bound estimate of the CBOR-encoded size of `data`, or
/// a payload-too-large error when it exceeds the batcher's limit.
pub fn validate_cbor_size(data: &VerificationData) -> (r: Result<usize, AlignedError>)
    ensures
        cbor_size_estimate(*data) <= MAX_PROOF_SIZE ==> r == Ok::<usize, AlignedError>(
            cbor_size_estimate(*data) as usize,
        ),
        cbor_size_estimate(*data) > MAX_PROOF_SIZE ==> (r matches Err(
            AlignedError::PayloadTooLarge(m),
        ) && m@ == "estimated "@ + decimal(cbor_size_estimate(*data)) + " bytes exceeds max "@
            + decimal(MAX_PROOF_SIZE as nat) + " bytes"@),
        r matches Ok(n) ==> n <= MAX_PROOF_SIZE,
{
    let size: u128 = data.proof.len() as u128 + opt_len_exec(&data.pub_input) as u128
        + opt_len_exec(&data.verification_key) as u128 + opt_len_exec(&data.vm_program_code) as u128
        + CBOR_OVERHEAD_BYTES as u128;
    if size > MAX_PROOF_SIZE as u128 {
        let mut m = "estimated ".to_owned();
        push_decimal(&mut m, size);
        m.append(" bytes exceeds max ");
        push_decimal(&mut m, MAX_PROOF_SIZE as u128);
        m.append(" bytes");
        return Err(AlignedError::PayloadTooLarge(m));
    }
    Ok(size as usize)
}

// ---------------------------------------------------------------------------
// On-chain verification
// ---------------------------------------------------------------------------
/// Result of checking whether an Aligned batch proof is verified on chain.
#[derive(Debug, Clone, Copy, PartialEq, Eq)]
pub enum BatchVerificationStatus {
    /// The batch inclusion check passed: the proof is verified on chain.
    Verified,
    /// The aggregator has not responded to the batch yet: keep polling.
    Pending,
    /// The aggregator responded but the inclusion check failed. Definitive.
    Failed,
}

/// Interprets the outcome of a bounded-time batch inclusion check: `None`
/// when the check timed out, otherwise what the SDK answered.
pub fn inclusion_check_result(outcome: Option<Result<bool, VerificationError>>) -> (r: Result<
    bool,
    AlignedError,
>)
    ensures
        outcome is None ==> (r matches Err(AlignedError::RpcUnreachable(m)) && m@
            == "is_proof_verified timed out"@),
        outcome matches Some(Ok(b)) ==> r == Ok::<bool, AlignedError>(b),
        outcome matches Some(Err(v)) ==> (r matches Err(e) && verification_classified(v, e)),
{
    match outcome {
        None => Err(AlignedError::RpcUnreachable("is_proof_verified timed out".to_owned())),
        Some(Ok(b)) => Ok(b),
        Some(Err(v)) => Err(classify_verification_error(v)),
    }
}

/// The status after the batch inclusion check: verified when it passed;
/// otherwise undecided until the batch state is read.
pub fn status_after_inclusion_check(verified: bool) -> (s: Option<BatchVerificationStatus>)
    ensures
        verified ==> s == Some(BatchVerificationStatus::Verified),
        !verified ==> s is None,
{
    if verified {
        Some(BatchVerificationStatus::Verified)
    } else {
        None
    }
}

/// The status of a batch whose inclusion check failed, from whether the
/// aggregator has responded to it.
pub fn status_from_batch_state(responded: bool) -> (s: BatchVerificationStatus)
    ensures
        responded ==> s == BatchVerificationStatus::Failed,
        !responded ==> s == BatchVerificationStatus::Pending,
{
    if responded {
        BatchVerificationStatus::Failed
    } else {
        BatchVerificationStatus::Pending
    }
}

/// What a verification check concludes from the inclusion check: a
/// timeout or an error of the check is its error; a passed check means
/// verified; a failed one leaves the status to the batch state (`None`).
pub fn after_inclusion_check(outcome: Option<Result<bool, VerificationError>>) -> (r: Result<
    Option<BatchVerificationStatus>,
    AlignedError,
>)
    ensures
        outcome is None ==> (r matches Err(AlignedError::RpcUnreachable(m)) && m@
            == "is_proof_verified timed out"@),
        outcome matches Some(Ok(b)) ==> r == Ok::<Option<BatchVerificationStatus>, AlignedError>(
            if b {
                Some(BatchVerificationStatus::Verified)
            } else {
                None
            },
        ),
        outcome matches Some(Err(v)) ==> (r matches Err(e) && verification_classified(v, e)),
{
    match inclusion_check_result(outcome) {
        Err(e) => Err(e),
        Ok(b) => Ok(status_after_inclusion_check(b)),
    }
}

/// The status of a batch whose inclusion check failed, from the outcome of
/// reading whether the aggregator has responded to it: failed when it has,
/// pending when not; a failed read is a batcher contract call failure.
pub fn status_after_batch_read(read: Result<bool, EthError>) -> (r: Result<
    BatchVerificationStatus,
    AlignedError,
>)
    ensures
        match read {
            Ok(responded) => r == Ok::<BatchVerificationStatus, AlignedError>(
                if responded {
                    BatchVerificationStatus::Failed
                } else {
                    BatchVerificationStatus::Pending
                },
            ),
            Err(e) => r == Err::<BatchVerificationStatus, AlignedError>(
                AlignedError::BatcherContractCallFailed(e),
            ),
        },
{
    match read {
        Ok(responded) => Ok(status_from_batch_state(responded)),
        Err(e) => Err(AlignedError::BatcherContractCallFailed(e)),
    }
}

/// The key of a batch in the service manager's `batchesState`: the batch
/// Merkle root when the sender is the zero address, otherwise the Keccak-256
/// of the root followed by the sender.
pub open spec fn batch_identifier_of(root: Seq<u8>, sender: Seq<u8>) -> Seq<u8> {
    if sender == Seq::new(20, |i: int| 0u8) {
        root
    } else {
        keccak256_digest(root + sender)
    }
}

/// Computes the key of a batch in the service manager's `batchesState`.
pub fn batch_identifier(batch_merkle_root: [u8; 32], sender: [u8; 20]) -> (id: [u8; 32])
    ensures
        id@ == batch_identifier_of(batch_merkle_root@, sender@),
{
    let mut zero = true;
    for i in 0..20
        invariant
            zero == (forall|j: int| 0 <= j < i ==> sender@[j] == 0u8),
    {
        if sender[i] != 0 {
            zero = false;
        }
    }
    if zero {
        assert(sender@ == Seq::new(20, |i: int| 0u8));
        batch_merkle_root
    } else {
        assert(sender@ != Seq::new(20, |i: int| 0u8)) by {
            if sender@ == Seq::new(20, |i: int| 0u8) {
                assert(forall|j: int| 0 <= j < 20 ==> sender@[j] == 0u8);
            }
        }
        let mut packed: Vec<u8> = Vec::new();
        for i in 0..32
            invariant
                packed@ == batch_merkle_root@.take(i as int),
        {
            packed.push(batch_merkle_root[i]);
            assert(batch_merkle_root@.take(i + 1) == batch_merkle_root@.take(i as int).push(
                batch_merkle_root@[i as int],
            ));
        }
        for i in 0..20
            invariant
                packed@ == batch_merkle_root@ + sender@.take(i as int),
        {
            packed.push(sender[i]);
            assert(sender@.take(i + 1) == sender@.take(i as int).push(sender@[i as int]));
        }
        assert(batch_merkle_root@.take(32) == batch_merkle_root@);
        assert(sender@.take(20) == sender@);
        keccak256(packed.as_slice())
    }
}

} // verus!
