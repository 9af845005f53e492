//! Ethereum-side logic of the bridge contracts: gas safety policy, contract
//! constructor arguments, the arguments of calls that carry an Aligned
//! verification receipt, receipt checks and the chain stored by the
//! settlement contract.
use vstd::prelude::*;
use vstd::string::StringExecFns;

use crate::constants::BRIDGE_TRANSITION_FRONTIER_LEN;
use crate::evm::{
    address_hex_error, checksummed_address, hex_address, parse_address, parse_checksummed_address,
};
use crate::rpcs::eth_errors::{
    classify_receipt_failure, receipt_failure_reason, ContractRevert, EthError,
};
use crate::text::{decimal, push_decimal};

verus! {

// ---------------------------------------------------------------------------
// Gas safety policy
// ---------------------------------------------------------------------------
/// Maximum gas allowed for a transaction.
pub const MAX_GAS_LIMIT_VALUE: u64 = 1_000_000;

/// Maximum gas price allowed, in gwei.
pub const MAX_GAS_PRICE_GWEI: u64 = 300;

/// Safety margin applied to gas estimates, in percent (110 means +10%).
pub const GAS_ESTIMATE_MARGIN: u64 = 110;

/// The gas price in whole gwei.
pub open spec fn gwei(price_wei: u128) -> int {
    price_wei as int / 1_000_000_000
}

/// The estimate with its safety margin.
pub open spec fn with_margin(estimated_gas: u64) -> int {
    estimated_gas as int * GAS_ESTIMATE_MARGIN as int / 100
}

/// Validates gas parameters against the safety policy: the network gas
/// price must not exceed `MAX_GAS_PRICE_GWEI` and the estimate plus 10% must
/// not exceed `MAX_GAS_LIMIT_VALUE`; returns the gas limit to set.
pub fn validate_gas_params(gas_price_wei: u128, estimated_gas: u64) -> (r: Result<u64, EthError>)
    ensures
        gwei(gas_price_wei) > MAX_GAS_PRICE_GWEI ==> (r matches Err(EthError::GasSafetyLimit(m))
            && m@ == "gas price too high: "@ + decimal(gwei(gas_price_wei) as nat)
            + " gwei (max: "@ + decimal(MAX_GAS_PRICE_GWEI as nat) + " gwei)"@),
        gwei(gas_price_wei) <= MAX_GAS_PRICE_GWEI && estimated_gas as int * GAS_ESTIMATE_MARGIN
            > u64::MAX ==> (r matches Err(EthError::GasSafetyLimit(m)) && m@
            == "gas margin calculation overflow"@),
        gwei(gas_price_wei) <= MAX_GAS_PRICE_GWEI && estimated_gas as int * GAS_ESTIMATE_MARGIN
            <= u64::MAX && with_margin(estimated_gas) > MAX_GAS_LIMIT_VALUE ==> (r matches Err(
            EthError::GasSafetyLimit(m),
        ) && m@ == "estimated gas too high: "@ + decimal(with_margin(estimated_gas) as nat)
            + " (max: "@ + decimal(MAX_GAS_LIMIT_VALUE as nat) + ")"@),
        gwei(gas_price_wei) <= MAX_GAS_PRICE_GWEI && estimated_gas as int * GAS_ESTIMATE_MARGIN
            <= u64::MAX && with_margin(estimated_gas) <= MAX_GAS_LIMIT_VALUE ==> r == Ok::<
            u64,
            EthError,
        >(with_margin(estimated_gas) as u64),
        r matches Ok(g) ==> estimated_gas <= g <= MAX_GAS_LIMIT_VALUE,
        r matches Err(e) ==> e.retryable(),
{
    let gas_price_gwei = gas_price_wei / 1_000_000_000;
    if gas_price_gwei > MAX_GAS_PRICE_GWEI as u128 {
        let mut m = "gas price too high: ".to_owned();
        push_decimal(&mut m, gas_price_gwei);
        m.append(" gwei (max: ");
        push_decimal(&mut m, MAX_GAS_PRICE_GWEI as u128);
        m.append(" gwei)");
        return Err(EthError::GasSafetyLimit(m));
    }
    let gas_with_margin = match estimated_gas.checked_mul(GAS_ESTIMATE_MARGIN) {
        Some(v) => v / 100,
        None => {
            return Err(EthError::GasSafetyLimit("gas margin calculation overflow".to_owned()));
        },
    };
    if gas_with_margin > MAX_GAS_LIMIT_VALUE {
        let mut m = "estimated gas too high: ".to_owned();
        push_decimal(&mut m, gas_with_margin as u128);
        m.append(" (max: ");
        push_decimal(&mut m, MAX_GAS_LIMIT_VALUE as u128);
        m.append(")");
        return Err(EthError::GasSafetyLimit(m));
    }
    Ok(gas_with_margin)
}

/// The gas policy of the example-contract calls, which compute in 256-bit
/// integers (so the margin never overflows) and report plain messages.
pub fn validate_gas_params_for_examples(gas_price_wei: u128, estimated_gas: u64) -> (r: Result<
    u64,
    String,
>)
    ensures
        gwei(gas_price_wei) > MAX_GAS_PRICE_GWEI ==> (r matches Err(m) && m@
            == "Gas price too high: "@ + decimal(gwei(gas_price_wei) as nat)
            + " gwei (max: "@ + decimal(MAX_GAS_PRICE_GWEI as nat) + " gwei)"@),
        gwei(gas_price_wei) <= MAX_GAS_PRICE_GWEI && with_margin(estimated_gas)
            > MAX_GAS_LIMIT_VALUE ==> (r matches Err(m) && m@ == "Estimated gas too high: "@
            + decimal(with_margin(estimated_gas) as nat) + " (max: "@ + decimal(MAX_GAS_LIMIT_VALUE as nat) + ")"@),
        gwei(gas_price_wei) <= MAX_GAS_PRICE_GWEI && with_margin(estimated_gas)
            <= MAX_GAS_LIMIT_VALUE ==> r == Ok::<u64, String>(with_margin(estimated_gas) as u64),
        r matches Ok(g) ==> estimated_gas <= g <= MAX_GAS_LIMIT_VALUE,
{
    let gas_price_gwei = gas_price_wei / 1_000_000_000;
    if gas_price_gwei > MAX_GAS_PRICE_GWEI as u128 {
        let mut m = "Gas price too high: ".to_owned();
        push_decimal(&mut m, gas_price_gwei);
        m.append(" gwei (max: ");
        push_decimal(&mut m, MAX_GAS_PRICE_GWEI as u128);
        m.append(" gwei)");
        return Err(m);
    }
    let gas_with_margin: u128 = estimated_gas as u128 * GAS_ESTIMATE_MARGIN as u128 / 100;
    if gas_with_margin > MAX_GAS_LIMIT_VALUE as u128 {
        let mut m = "Estimated gas too high: ".to_owned();
        push_decimal(&mut m, gas_with_margin);
        m.append(" (max: ");
        push_decimal(&mut m, MAX_GAS_LIMIT_VALUE as u128);
        m.append(")");
        return Err(m);
    }
    Ok(gas_with_margin as u64)
}

// ---------------------------------------------------------------------------
// Constructor arguments
// ---------------------------------------------------------------------------
/// Arguments of the Mina State Settlement Example contract constructor: the
/// Aligned service manager address and the root state hash of the Mina
/// transition frontier.
#[derive(Debug, Clone, Copy, PartialEq, Eq)]
pub struct MinaStateSettlementExampleConstructorArgs {
    aligned_service_addr: [u8; 20],
    root_state_hash: [u8; 32],
}

/// Arguments of the Mina Account Validation Example contract constructor:
/// the Aligned service manager address.
#[derive(Debug, Clone, Copy, PartialEq, Eq)]
pub struct MinaAccountValidationExampleConstructorArgs {
    aligned_service_addr: [u8; 20],
}

/// A byte vector of exactly 32 bytes as an array.
fn to_array32(v: &Vec<u8>) -> (a: [u8; 32])
    requires
        v@.len() == 32,
    ensures
        a@ == v@,
{
    let mut a = [0u8; 32];
    for i in 0..32
        invariant
            v@.len() == 32,
            forall|j: int| 0 <= j < i ==> a@[j] == v@[j],
    {
        a[i] = v[i];
    }
    assert(a@ == v@);
    a
}

impl MinaStateSettlementExampleConstructorArgs {
    /// The Aligned service manager address.
    pub closed spec fn service_addr(self) -> Seq<u8> {
        self.aligned_service_addr@
    }

    /// The root state hash.
    pub closed spec fn root_hash(self) -> Seq<u8> {
        self.root_state_hash@
    }

    /// Builds the constructor arguments from an EIP-55 checksummed address
    /// and the 32 bytes of the root state hash.
    pub fn new(aligned_service_addr: &str, root_state_hash: Vec<u8>) -> (r: Result<Self, String>)
        ensures
            match checksummed_address(aligned_service_addr@) {
                Err(e) => r matches Err(m) && m@ == e,
                Ok(a) => if root_state_hash@.len() == 32 {
                    r matches Ok(args) && args.service_addr() == a && args.root_hash()
                        == root_state_hash@
                } else {
                    r matches Err(m) && m@
                        == "Could not convert root state hash into fixed array"@
                },
            },
    {
        let aligned_service_addr = match parse_checksummed_address(aligned_service_addr) {
            Ok(a) => a,
            Err(e) => {
                return Err(e);
            },
        };
        if root_state_hash.len() != 32 {
            return Err("Could not convert root state hash into fixed array".to_owned());
        }
        let root_state_hash = to_array32(&root_state_hash);
        Ok(MinaStateSettlementExampleConstructorArgs { aligned_service_addr, root_state_hash })
    }

    /// The Aligned service manager address.
    pub fn aligned_service_addr(&self) -> (a: [u8; 20])
        ensures
            a@ == self.service_addr(),
    {
        self.aligned_service_addr
    }

    /// The root state hash.
    pub fn root_state_hash(&self) -> (h: [u8; 32])
        ensures
            h@ == self.root_hash(),
    {
        self.root_state_hash
    }
}

impl MinaAccountValidationExampleConstructorArgs {
    /// The Aligned service manager address.
    pub closed spec fn service_addr(self) -> Seq<u8> {
        self.aligned_service_addr@
    }

    /// Builds the constructor arguments from an EIP-55 checksummed address.
    pub fn new(aligned_service_addr: &str) -> (r: Result<Self, String>)
        ensures
            match checksummed_address(aligned_service_addr@) {
                Err(e) => r matches Err(m) && m@ == e,
                Ok(a) => r matches Ok(args) && args.service_addr() == a,
            },
    {
        match parse_checksummed_address(aligned_service_addr) {
            Ok(a) => Ok(MinaAccountValidationExampleConstructorArgs { aligned_service_addr: a }),
            Err(e) => Err(e),
        }
    }

    /// The Aligned service manager address.
    pub fn aligned_service_addr(&self) -> (a: [u8; 20])
        ensures
            a@ == self.service_addr(),
    {
        self.aligned_service_addr
    }
}

/// Addresses of the three deployed bridge contracts.
#[derive(Debug, Clone, Copy, PartialEq, Eq)]
pub struct DeployedContracts {
    pub mina_state_settlement: [u8; 20],
    pub mina_account_validation: [u8; 20],
    pub nori_token_bridge: [u8; 20],
}

/// The addresses of a bridge contract and of the batcher payment service,
/// each parsed as hex; the first that does not parse decides the error.
pub fn contract_addresses(contract_addr: &str, batcher_payment_service: &str) -> (r: Result<
    ([u8; 20], [u8; 20]),
    String,
>)
    ensures
        match hex_address(contract_addr@) {
            None => r matches Err(m) && m@ == address_hex_error(contract_addr@),
            Some(c) => match hex_address(batcher_payment_service@) {
                None => r matches Err(m) && m@ == address_hex_error(batcher_payment_service@),
                Some(b) => r matches Ok((x, y)) && x@ == c && y@ == b,
            },
        },
{
    let c = match parse_address(contract_addr) {
        Ok(c) => c,
        Err(e) => {
            return Err(e);
        },
    };
    let b = match parse_address(batcher_payment_service) {
        Ok(b) => b,
        Err(e) => {
            return Err(e);
        },
    };
    Ok((c, b))
}

// ---------------------------------------------------------------------------
// Calls carrying an Aligned verification receipt
// ---------------------------------------------------------------------------
/// The commitments of verified data.
#[derive(Debug, Clone, Copy, PartialEq, Eq)]
pub struct VerificationDataCommitment {
    pub proof_commitment: [u8; 32],
    pub pub_input_commitment: [u8; 32],
    pub proving_system_aux_data_commitment: [u8; 32],
    pub proof_generator_addr: [u8; 20],
}

/// What Aligned returns for a submitted proof: its commitments, the batch
/// it landed in, and its inclusion proof in that batch.
#[derive(Debug, Clone)]
pub struct AlignedVerificationData {
    pub verification_data_commitment: VerificationDataCommitment,
    pub batch_merkle_root: [u8; 32],
    /// The Merkle path of the inclusion proof, one 32-byte node per level.
    pub merkle_path: Vec<[u8; 32]>,
    pub index_in_batch: usize,
}

/// The arguments shared by `updateChain`, `unlockTokens` and
/// `validateAccount`.
#[derive(Debug, Clone)]
pub struct AlignedCallArgs {
    pub proof_commitment: [u8; 32],
    pub proving_system_aux_data_commitment: [u8; 32],
    pub proof_generator_addr: [u8; 20],
    pub batch_merkle_root: [u8; 32],
    /// The Merkle path flattened into consecutive bytes.
    pub merkle_proof: Vec<u8>,
    pub verification_data_batch_index: u64,
    pub pub_input: Vec<u8>,
    pub batcher_payment_service: [u8; 20],
}

/// The nodes of a Merkle path concatenated.
pub open spec fn flattened(path: Seq<[u8; 32]>) -> Seq<u8>
    decreases path.len(),
{
    if path.len() == 0 {
        seq![]
    } else {
        flattened(path.drop_last()) + path.last()@
    }
}

/// Concatenates the nodes of a Merkle path.
pub fn flatten_merkle_path(path: &Vec<[u8; 32]>) -> (r: Vec<u8>)
    ensures
        r@ == flattened(path@),
{
    let mut r: Vec<u8> = Vec::new();
    for i in 0..path.len()
        invariant
            r@ == flattened(path@.take(i as int)),
    {
        let node = path[i];
        for j in 0..32
            invariant
                r@ == flattened(path@.take(i as int)) + node@.take(j as int),
        {
            r.push(node[j]);
            assert(node@.take(j + 1) == node@.take(j as int).push(node@[j as int]));
        }
        assert(node@.take(32) == node@);
        assert(path@.take(i + 1).drop_last() == path@.take(i as int));
    }
    assert(path@.take(path@.len() as int) == path@);
    r
}

/// Builds the contract call arguments carrying a verification receipt.
pub fn aligned_call_args(
    verification_data: AlignedVerificationData,
    pub_input: Vec<u8>,
    batcher_payment_service: [u8; 20],
) -> (a: AlignedCallArgs)
    ensures
        a.proof_commitment == verification_data.verification_data_commitment.proof_commitment,
        a.proving_system_aux_data_commitment
            == verification_data.verification_data_commitment.proving_system_aux_data_commitment,
        a.proof_generator_addr
            == verification_data.verification_data_commitment.proof_generator_addr,
        a.batch_merkle_root == verification_data.batch_merkle_root,
        a.merkle_proof@ == flattened(verification_data.merkle_path@),
        a.verification_data_batch_index == verification_data.index_in_batch,
        a.pub_input == pub_input,
        a.batcher_payment_service == batcher_payment_service,
{
    let merkle_proof = flatten_merkle_path(&verification_data.merkle_path);
    let c = verification_data.verification_data_commitment;
    AlignedCallArgs {
        proof_commitment: c.proof_commitment,
        proving_system_aux_data_commitment: c.proving_system_aux_data_commitment,
        proof_generator_addr: c.proof_generator_addr,
        batch_merkle_root: verification_data.batch_merkle_root,
        merkle_proof,
        verification_data_batch_index: verification_data.index_in_batch as u64,
        pub_input,
        batcher_payment_service,
    }
}

// ---------------------------------------------------------------------------
// Receipts and the stored chain
// ---------------------------------------------------------------------------
/// What a mined transaction's receipt records.
#[derive(Debug, Clone, Copy, PartialEq, Eq)]
pub struct TransactionReceipt {
    pub transaction_hash: [u8; 32],
    /// Whether the transaction succeeded.
    pub status: bool,
    pub gas_used: u64,
}

/// Checks a mined receipt: a successful one is returned as is; a failed one
/// is classified as out of gas when it used the whole `gas_limit` that was
/// set on the transaction, otherwise as a revert without data.
pub fn check_receipt_status(receipt: TransactionReceipt, gas_limit: u64) -> (r: Result<
    TransactionReceipt,
    EthError,
>)
    ensures
        receipt.status ==> r == Ok::<TransactionReceipt, EthError>(receipt),
        !receipt.status && receipt.gas_used == gas_limit ==> (r matches Err(
            EthError::OutOfGas(m),
        ) && m@ == "execution consumed all gas ("@ + decimal(gas_limit as nat) + ")"@),
        !receipt.status && receipt.gas_used != gas_limit ==> (r matches Err(
            EthError::Reverted(ContractRevert::Unknown(m)),
        ) && m@ == receipt_failure_reason()),
        r matches Err(e) ==> !e.retryable(),
{
    if receipt.status {
        Ok(receipt)
    } else {
        Err(classify_receipt_failure(receipt.gas_used, gas_limit))
    }
}

/// Accepts the state hashes read from the settlement contract when there are
/// exactly as many as a bridged window holds.
pub fn check_chain_state_hashes<T>(hashes: Vec<T>) -> (r: Result<Vec<T>, EthError>)
    ensures
        hashes@.len() == BRIDGE_TRANSITION_FRONTIER_LEN ==> r == Ok::<Vec<T>, EthError>(hashes),
        hashes@.len() != BRIDGE_TRANSITION_FRONTIER_LEN ==> (r matches Err(
            EthError::SerializationError(m),
        ) && m@ == "wrong number of state hashes from contract"@),
{
    if hashes.len() == BRIDGE_TRANSITION_FRONTIER_LEN {
        Ok(hashes)
    } else {
        Err(EthError::SerializationError("wrong number of state hashes from contract".to_owned()))
    }
}

/// The views of a list of strings.
pub open spec fn string_views(v: Seq<String>) -> Seq<Seq<char>> {
    v.map_values(|s: String| s@)
}

/// Whether two lists of strings hold the same strings in the same order.
pub fn same_strings(a: &Vec<String>, b: &Vec<String>) -> (r: bool)
    ensures
        r == (string_views(a@) == string_views(b@)),
{
    if a.len() != b.len() {
        assert(string_views(a@).len() != string_views(b@).len());
        return false;
    }
    for i in 0..a.len()
        invariant
            a@.len() == b@.len(),
            forall|j: int| 0 <= j < i ==> a@[j]@ == b@[j]@,
    {
        if a[i] != b[i] {
            assert(string_views(a@)[i as int] != string_views(b@)[i as int]);
            return false;
        }
    }
    assert(string_views(a@) =~= string_views(b@));
    true
}

/// After an `updateChain` transaction, confirms that the state hashes the
/// contract now stores are the candidate chain's, and returns the new tip.
pub fn confirm_stored_chain(stored: &Vec<String>, candidate: &Vec<String>) -> (r: Result<
    String,
    String,
>)
    ensures
        string_views(stored@) != string_views(candidate@) ==> (r matches Err(m) && m@
            == "Stored network state hashes don't match the candidate's"@),
        string_views(stored@) == string_views(candidate@) && stored@.len() == 0 ==> (r matches Err(
            m,
        ) && m@ == "Failed to get tip state hash"@),
        string_views(stored@) == string_views(candidate@) && stored@.len() > 0 ==> (r matches Ok(
            t,
        ) && t@ == stored@.last()@),
{
    if !same_strings(stored, candidate) {
        return Err("Stored network state hashes don't match the candidate's".to_owned());
    }
    if stored.len() == 0 {
        return Err("Failed to get tip state hash".to_owned());
    }
    Ok(stored[stored.len() - 1].clone())
}

// ---------------------------------------------------------------------------
// The updateChain transaction
// ---------------------------------------------------------------------------
/// Where an `updateChain` transaction stands.
#[derive(Debug, Clone, Copy, PartialEq, Eq)]
pub enum UpdateStage {
    /// Waiting for the gas estimate of the call.
    AwaitGasEstimate,
    /// Waiting for the network gas price.
    AwaitGasPrice,
    /// Waiting for the transaction to be sent.
    AwaitSend,
    /// Waiting for its receipt.
    AwaitReceipt,
    /// Waiting for the state hashes the contract stores.
    AwaitStoredHashes,
    /// Nothing more to do.
    Finished,
}

/// An `updateChain` transaction in progress for a candidate chain.
#[derive(Debug)]
pub struct UpdateFlow {
    pub stage: UpdateStage,
    /// The state hashes of the candidate chain.
    pub candidate: Vec<String>,
    /// The gas estimate of the call, once known.
    pub estimated_gas: u64,
}

/// What came of the last action of an `updateChain` transaction.
#[derive(Debug)]
pub enum UpdateEvent {
    GasEstimated(Result<u64, String>),
    GasPriceRead(Result<u128, String>),
    Sent(Result<(), String>),
    Mined(Result<(), String>),
    StoredHashesRead(Result<Vec<String>, String>),
}

/// Why an `updateChain` transaction failed.
#[derive(Debug, PartialEq, Eq)]
pub enum UpdateFailure {
    /// A call to the node failed with this error.
    Call(String),
    /// The gas policy refused the gas price or the estimate.
    Gas { gas_price_wei: u128, estimated_gas: u64 },
    /// The contract stores other hashes than the candidate's.
    Mismatch,
    /// The contract stores no hashes.
    NoTip,
}

/// What the caller does next in an `updateChain` transaction.
#[derive(Debug, PartialEq, Eq)]
pub enum UpdateAction {
    /// Read the network gas price.
    ReadGasPrice,
    /// Send the transaction with this gas limit.
    Send { gas_limit: u64 },
    /// Wait for the transaction's receipt.
    WaitReceipt,
    /// Read the state hashes the contract stores.
    ReadStoredHashes,
    /// The transaction is over, with this outcome.
    Finish(Result<(), UpdateFailure>),
    /// Nothing: the event does not fit where the transaction stands.
    Idle,
}

impl UpdateFailure {
    /// Whether `m` is the error text of the failure.
    pub open spec fn has_text(self, m: Seq<char>) -> bool {
        match self {
            UpdateFailure::Call(e) => m == e@,
            UpdateFailure::Gas { gas_price_wei, estimated_gas } => gas_error_text(
                gas_price_wei,
                estimated_gas,
                m,
            ),
            UpdateFailure::Mismatch => m == "Stored network state hashes don't match the candidate's"@,
            UpdateFailure::NoTip => m == "Failed to get tip state hash"@,
        }
    }

    /// Whether a gas failure names a gas price and estimate the policy
    /// refuses, as every gas failure of a transaction does.
    pub open spec fn refused_gas_only(self) -> bool {
        match self {
            UpdateFailure::Gas { gas_price_wei, estimated_gas } => gas_limit_of(
                gas_price_wei,
                estimated_gas,
            ) is None,
            _ => true,
        }
    }

    /// The error text of the failure.
    pub fn message(&self) -> (m: String)
        requires
            self.refused_gas_only(),
        ensures
            self.has_text(m@),
    {
        match self {
            UpdateFailure::Call(e) => e.as_str().to_owned(),
            UpdateFailure::Gas { gas_price_wei, estimated_gas } => {
                match validate_gas_params_for_examples(*gas_price_wei, *estimated_gas) {
                    Err(m) => m,
                    Ok(_) => String::new(),
                }
            },
            UpdateFailure::Mismatch => "Stored network state hashes don't match the candidate's".to_owned(),
            UpdateFailure::NoTip => "Failed to get tip state hash".to_owned(),
        }
    }
}

/// The gas limit the policy sets for a gas price and an estimate, if it
/// accepts them.
pub open spec fn gas_limit_of(gas_price_wei: u128, estimated_gas: u64) -> Option<u64> {
    if gwei(gas_price_wei) <= MAX_GAS_PRICE_GWEI && with_margin(estimated_gas) <= MAX_GAS_LIMIT_VALUE {
        Some(with_margin(estimated_gas) as u64)
    } else {
        None
    }
}

/// Whether `m` is the policy's error text for a refused gas price or estimate.
pub open spec fn gas_error_text(gas_price_wei: u128, estimated_gas: u64, m: Seq<char>) -> bool {
    if gwei(gas_price_wei) > MAX_GAS_PRICE_GWEI {
        m == "Gas price too high: "@ + decimal(gwei(gas_price_wei) as nat) + " gwei (max: "@
            + decimal(MAX_GAS_PRICE_GWEI as nat) + " gwei)"@
    } else {
        m == "Estimated gas too high: "@ + decimal(with_margin(estimated_gas) as nat) + " (max: "@
            + decimal(MAX_GAS_LIMIT_VALUE as nat) + ")"@
    }
}

/// Starts an `updateChain` transaction for the candidate chain's state
/// hashes: the caller estimates the call's gas first.
pub fn begin_update(candidate: Vec<String>) -> (f: UpdateFlow)
    ensures
        f == (UpdateFlow { stage: UpdateStage::AwaitGasEstimate, candidate, estimated_gas: 0 }),
{
    UpdateFlow { stage: UpdateStage::AwaitGasEstimate, candidate, estimated_gas: 0 }
}

/// `s` moved to `stage`.
pub open spec fn update_at(s: UpdateFlow, stage: UpdateStage) -> UpdateFlow {
    UpdateFlow { stage, ..s }
}

/// One step of an `updateChain` transaction: the next flow and action for
/// `e`.
pub open spec fn update_next(s: UpdateFlow, e: UpdateEvent) -> (UpdateFlow, UpdateAction) {
    match (s.stage, e) {
        (UpdateStage::AwaitGasEstimate, UpdateEvent::GasEstimated(Err(x))) => (
            update_at(s, UpdateStage::Finished),
            UpdateAction::Finish(Err(UpdateFailure::Call(x))),
        ),
        (UpdateStage::AwaitGasEstimate, UpdateEvent::GasEstimated(Ok(g))) => (
            UpdateFlow { stage: UpdateStage::AwaitGasPrice, estimated_gas: g, ..s },
            UpdateAction::ReadGasPrice,
        ),
        (UpdateStage::AwaitGasPrice, UpdateEvent::GasPriceRead(Err(x))) => (
            update_at(s, UpdateStage::Finished),
            UpdateAction::Finish(Err(UpdateFailure::Call(x))),
        ),
        (UpdateStage::AwaitGasPrice, UpdateEvent::GasPriceRead(Ok(p))) => match gas_limit_of(
            p,
            s.estimated_gas,
        ) {
            Some(limit) => (update_at(s, UpdateStage::AwaitSend), UpdateAction::Send { gas_limit: limit }),
            None => (
                update_at(s, UpdateStage::Finished),
                UpdateAction::Finish(
                    Err(UpdateFailure::Gas { gas_price_wei: p, estimated_gas: s.estimated_gas }),
                ),
            ),
        },
        (UpdateStage::AwaitSend, UpdateEvent::Sent(Err(x))) => (
            update_at(s, UpdateStage::Finished),
            UpdateAction::Finish(Err(UpdateFailure::Call(x))),
        ),
        (UpdateStage::AwaitSend, UpdateEvent::Sent(Ok(()))) => (
            update_at(s, UpdateStage::AwaitReceipt),
            UpdateAction::WaitReceipt,
        ),
        (UpdateStage::AwaitReceipt, UpdateEvent::Mined(Err(x))) => (
            update_at(s, UpdateStage::Finished),
            UpdateAction::Finish(Err(UpdateFailure::Call(x))),
        ),
        (UpdateStage::AwaitReceipt, UpdateEvent::Mined(Ok(()))) => (
            update_at(s, UpdateStage::AwaitStoredHashes),
            UpdateAction::ReadStoredHashes,
        ),
        (UpdateStage::AwaitStoredHashes, UpdateEvent::StoredHashesRead(Err(x))) => (
            update_at(s, UpdateStage::Finished),
            UpdateAction::Finish(Err(UpdateFailure::Call(x))),
        ),
        (UpdateStage::AwaitStoredHashes, UpdateEvent::StoredHashesRead(Ok(h))) => (
            update_at(s, UpdateStage::Finished),
            UpdateAction::Finish(
                if string_views(h@) != string_views(s.candidate@) {
                    Err(UpdateFailure::Mismatch)
                } else if h@.len() == 0 {
                    Err(UpdateFailure::NoTip)
                } else {
                    Ok(())
                },
            ),
        ),
        _ => (s, UpdateAction::Idle),
    }
}

/// Advances an `updateChain` transaction by what came of its last action: a
/// failed estimate, gas price read, send, receipt or stored-hash read ends it
/// with that error; the gas limit sent is the one the gas policy sets for the
/// estimate and the current gas price, and a refused one ends it; it succeeds
/// only when the contract then stores exactly the candidate's state hashes.
pub fn update_step(s: UpdateFlow, e: UpdateEvent) -> (r: (UpdateFlow, UpdateAction))
    ensures
        r == update_next(s, e),
{
    match (s.stage, e) {
        (UpdateStage::AwaitGasEstimate, UpdateEvent::GasEstimated(Err(x))) => (
            UpdateFlow { stage: UpdateStage::Finished, ..s },
            UpdateAction::Finish(Err(UpdateFailure::Call(x))),
        ),
        (UpdateStage::AwaitGasEstimate, UpdateEvent::GasEstimated(Ok(g))) => (
            UpdateFlow { stage: UpdateStage::AwaitGasPrice, estimated_gas: g, ..s },
            UpdateAction::ReadGasPrice,
        ),
        (UpdateStage::AwaitGasPrice, UpdateEvent::GasPriceRead(Err(x))) => (
            UpdateFlow { stage: UpdateStage::Finished, ..s },
            UpdateAction::Finish(Err(UpdateFailure::Call(x))),
        ),
        (UpdateStage::AwaitGasPrice, UpdateEvent::GasPriceRead(Ok(p))) => {
            let est = s.estimated_gas;
            match validate_gas_params_for_examples(p, est) {
                Ok(limit) => (
                    UpdateFlow { stage: UpdateStage::AwaitSend, ..s },
                    UpdateAction::Send { gas_limit: limit },
                ),
                Err(_) => (
                    UpdateFlow { stage: UpdateStage::Finished, ..s },
                    UpdateAction::Finish(Err(UpdateFailure::Gas { gas_price_wei: p, estimated_gas: est })),
                ),
            }
        },
        (UpdateStage::AwaitSend, UpdateEvent::Sent(Err(x))) => (
            UpdateFlow { stage: UpdateStage::Finished, ..s },
            UpdateAction::Finish(Err(UpdateFailure::Call(x))),
        ),
        (UpdateStage::AwaitSend, UpdateEvent::Sent(Ok(()))) => (
            UpdateFlow { stage: UpdateStage::AwaitReceipt, ..s },
            UpdateAction::WaitReceipt,
        ),
        (UpdateStage::AwaitReceipt, UpdateEvent::Mined(Err(x))) => (
            UpdateFlow { stage: UpdateStage::Finished, ..s },
            UpdateAction::Finish(Err(UpdateFailure::Call(x))),
        ),
        (UpdateStage::AwaitReceipt, UpdateEvent::Mined(Ok(()))) => (
            UpdateFlow { stage: UpdateStage::AwaitStoredHashes, ..s },
            UpdateAction::ReadStoredHashes,
        ),
        (UpdateStage::AwaitStoredHashes, UpdateEvent::StoredHashesRead(Err(x))) => (
            UpdateFlow { stage: UpdateStage::Finished, ..s },
            UpdateAction::Finish(Err(UpdateFailure::Call(x))),
        ),
        (UpdateStage::AwaitStoredHashes, UpdateEvent::StoredHashesRead(Ok(h))) => {
            let outcome = if !same_strings(&h, &s.candidate) {
                Err(UpdateFailure::Mismatch)
            } else if h.len() == 0 {
                Err(UpdateFailure::NoTip)
            } else {
                Ok(())
            };
            (UpdateFlow { stage: UpdateStage::Finished, ..s }, UpdateAction::Finish(outcome))
        },
        _ => (s, UpdateAction::Idle),
    }
}

/// The actions an `updateChain` transaction takes for a run of events.
pub open spec fn update_trace(s: UpdateFlow, events: Seq<UpdateEvent>) -> Seq<UpdateAction>
    decreases events.len(),
{
    if events.len() == 0 {
        Seq::empty()
    } else {
        seq![update_next(s, events[0]).1] + update_trace(update_next(s, events[0]).0, events.skip(1))
    }
}

proof fn update_trace_unfold(s: UpdateFlow, events: Seq<UpdateEvent>)
    ensures
        update_trace(s, events).len() == events.len(),
        events.len() > 0 ==> update_trace(s, events)[0] == update_next(s, events[0]).1,
        events.len() > 0 ==> forall|i: int| 0 < i < events.len() ==> #[trigger] update_trace(s, events)[i]
            == update_trace(update_next(s, events[0]).0, events.skip(1))[i - 1],
    decreases events.len(),
{
    if events.len() > 0 {
        update_trace_unfold(update_next(s, events[0]).0, events.skip(1));
    }
}

/// Every `updateChain` transaction is sent with the gas limit that the gas
/// policy sets for the call's estimate and the gas price read just before,
/// which is at most `MAX_GAS_LIMIT_VALUE`.
pub proof fn update_sends_the_validated_gas_limit(s: UpdateFlow, events: Seq<UpdateEvent>)
    ensures
        forall|i: int| 0 <= i < events.len() ==> sent_with_validated_limit(
            #[trigger] update_trace(s, events)[i],
            events[i],
            update_state_at(s, events, i).estimated_gas,
        ),
    decreases events.len(),
{
    update_trace_unfold(s, events);
    if events.len() > 0 {
        update_sends_the_validated_gas_limit(update_next(s, events[0]).0, events.skip(1));
        assert forall|i: int| 0 <= i < events.len() implies sent_with_validated_limit(
            #[trigger] update_trace(s, events)[i],
            events[i],
            update_state_at(s, events, i).estimated_gas,
        ) by {
            if i > 0 {
                assert(events[i] == events.skip(1)[i - 1]);
                assert(update_state_at(s, events, i) == update_state_at(
                    update_next(s, events[0]).0,
                    events.skip(1),
                    i - 1,
                ));
            }
        }
    }
}

/// Whether `a`, taken on event `e` with the estimate `estimated_gas`, is
/// either no send, or a send with the gas limit the policy sets for the gas
/// price `e` read.
pub open spec fn sent_with_validated_limit(a: UpdateAction, e: UpdateEvent, estimated_gas: u64) -> bool {
    match a {
        UpdateAction::Send { gas_limit } => gas_limit <= MAX_GAS_LIMIT_VALUE && match e {
            UpdateEvent::GasPriceRead(Ok(p)) => gas_limit_of(p, estimated_gas) == Some(gas_limit),
            _ => false,
        },
        _ => true,
    }
}

/// Whether `a`, taken on event `e`, is either no success, or a success on
/// reading back the candidate's state hashes, and not none.
pub open spec fn succeeded_on_candidate(a: UpdateAction, e: UpdateEvent, candidate: Vec<String>) -> bool {
    match a {
        UpdateAction::Finish(Ok(())) => match e {
            UpdateEvent::StoredHashesRead(Ok(h)) => string_views(h@) == string_views(candidate@)
                && h@.len() > 0,
            _ => false,
        },
        _ => true,
    }
}

/// The flow an `updateChain` transaction is in when event `i` arrives.
pub open spec fn update_state_at(s: UpdateFlow, events: Seq<UpdateEvent>, i: int) -> UpdateFlow
    decreases i,
{
    if i <= 0 || events.len() == 0 {
        s
    } else {
        update_state_at(update_next(s, events[0]).0, events.skip(1), i - 1)
    }
}

/// An `updateChain` transaction succeeds only on reading back exactly the
/// candidate chain's state hashes, and not none.
pub proof fn update_succeeds_only_on_stored_candidate(s: UpdateFlow, events: Seq<UpdateEvent>)
    ensures
        forall|i: int| 0 <= i < events.len() ==> succeeded_on_candidate(#[trigger] update_trace(s, events)[i], events[i], s.candidate),
    decreases events.len(),
{
    update_trace_unfold(s, events);
    if events.len() > 0 {
        update_succeeds_only_on_stored_candidate(update_next(s, events[0]).0, events.skip(1));
        assert forall|i: int| 0 <= i < events.len() implies succeeded_on_candidate(#[trigger] update_trace(s, events)[i], events[i], s.candidate) by {
            if i > 0 {
                assert(events[i] == events.skip(1)[i - 1]);
            }
        }
    }
}

} // verus!
