//! Ethereum-side errors: contract reverts of the bridge contracts and the
//! classification of JSON-RPC, transport, pending-transaction and contract
//! call failures into retry-oriented categories.
use vstd::prelude::*;
use vstd::string::StringExecFns;

use crate::evm::{
    decode_revert_reason, hex_encode, hex_lower, is_retry_err, opt_view,
    payload_is_retry_err, payload_revert_data, revert_data, revert_reason, selector,
    selector_of,
};
use crate::rpcs::error::labelled;
use crate::text::{
    contains, decimal, has_substring, int_text, lowercase, push_decimal, push_int, str_eq,
    to_lowercase,
};

verus! {

/// Every revert the bridge contracts can produce.
///
/// Custom errors of MinaStateSettlementExample, MinaAccountValidationExample
/// and NoriTokenBridge, followed by the `require` messages of NoriTokenBridge.
#[derive(Debug, Clone, PartialEq, Eq)]
pub enum ContractRevert {
    /// `error MinaProvingSystemIdIsNotValid(bytes32)`
    ProvingSystemIdInvalid,
    /// `error MinaNetworkIsWrong()`
    NetworkMismatch,
    /// `error NewStateIsNotValid()`
    NewStateInvalid,
    /// `error TipStateIsWrong(bytes32, bytes32)`
    TipStateWrong,
    /// `error AccountIsNotValid(bytes32)`
    AccountIsNotValid,
    /// `error MinaAccountProvingSystemIdIsNotValid(bytes32)`
    AccountProvingSystemIdInvalid,
    /// `error AlignedContractsNotConfigured()`
    ContractsNotConfigured,
    /// `error ZeroAddress()`
    ZeroAddress,
    /// `error NotBridgeOperator()`
    NotBridgeOperator,
    /// require "Invalid Ledger"
    InvalidLedger,
    /// require "Invalid Zkapp Account"
    InvalidAccount,
    /// require "Burn so far is greater than the amount to burn"
    BurnAlreadyProcessed,
    /// require "To unlock amount is greater than the amount to unlock"
    UnlockAmountExceeded,
    /// require "You must send some Ether to lock"
    ZeroLockAmount,
    /// require "Must be multiple of smallest bridge unit"
    NotBridgeUnit,
    /// require "Total locked exceeds maximum allowed"
    MaxMagnitudeExceeded,
    /// require "This Mina account is already linked to a different ETH address"
    AccountAlreadyLinked,
    /// require "No ETH to withdraw"
    NothingToWithdraw,
    /// Revert data that matches no known error or message; carries the raw
    /// hex (or the unknown reason string) for debugging.
    Unknown(String),
}

impl ContractRevert {
    /// The text `Display` shows for this revert.
    pub open spec fn display(self) -> Seq<char> {
        match self {
            ContractRevert::ProvingSystemIdInvalid => "MinaProvingSystemIdIsNotValid"@,
            ContractRevert::NetworkMismatch => "MinaNetworkIsWrong"@,
            ContractRevert::NewStateInvalid => "NewStateIsNotValid"@,
            ContractRevert::TipStateWrong => "TipStateIsWrong"@,
            ContractRevert::AccountIsNotValid => "AccountIsNotValid"@,
            ContractRevert::AccountProvingSystemIdInvalid => "MinaAccountProvingSystemIdIsNotValid"@,
            ContractRevert::ContractsNotConfigured => "AlignedContractsNotConfigured"@,
            ContractRevert::ZeroAddress => "ZeroAddress"@,
            ContractRevert::NotBridgeOperator => "NotBridgeOperator"@,
            ContractRevert::InvalidLedger => "Invalid Ledger"@,
            ContractRevert::InvalidAccount => "Invalid Zkapp Account"@,
            ContractRevert::BurnAlreadyProcessed => "BurnAlreadyProcessed"@,
            ContractRevert::UnlockAmountExceeded => "UnlockAmountExceeded"@,
            ContractRevert::ZeroLockAmount => "ZeroLockAmount"@,
            ContractRevert::NotBridgeUnit => "NotBridgeUnit"@,
            ContractRevert::MaxMagnitudeExceeded => "MaxMagnitudeExceeded"@,
            ContractRevert::AccountAlreadyLinked => "AccountAlreadyLinked"@,
            ContractRevert::NothingToWithdraw => "NothingToWithdraw"@,
            ContractRevert::Unknown(hex) => "Unknown("@ + hex@ + ")"@,
        }
    }

    /// The text `Display` shows for this revert.
    pub fn to_string(&self) -> (s: String)
        ensures
            s@ == self.display(),
    {
        match self {
            ContractRevert::ProvingSystemIdInvalid => "MinaProvingSystemIdIsNotValid".to_owned(),
            ContractRevert::NetworkMismatch => "MinaNetworkIsWrong".to_owned(),
            ContractRevert::NewStateInvalid => "NewStateIsNotValid".to_owned(),
            ContractRevert::TipStateWrong => "TipStateIsWrong".to_owned(),
            ContractRevert::AccountIsNotValid => "AccountIsNotValid".to_owned(),
            ContractRevert::AccountProvingSystemIdInvalid => {
                "MinaAccountProvingSystemIdIsNotValid".to_owned()
            },
            ContractRevert::ContractsNotConfigured => "AlignedContractsNotConfigured".to_owned(),
            ContractRevert::ZeroAddress => "ZeroAddress".to_owned(),
            ContractRevert::NotBridgeOperator => "NotBridgeOperator".to_owned(),
            ContractRevert::InvalidLedger => "Invalid Ledger".to_owned(),
            ContractRevert::InvalidAccount => "Invalid Zkapp Account".to_owned(),
            ContractRevert::BurnAlreadyProcessed => "BurnAlreadyProcessed".to_owned(),
            ContractRevert::UnlockAmountExceeded => "UnlockAmountExceeded".to_owned(),
            ContractRevert::ZeroLockAmount => "ZeroLockAmount".to_owned(),
            ContractRevert::NotBridgeUnit => "NotBridgeUnit".to_owned(),
            ContractRevert::MaxMagnitudeExceeded => "MaxMagnitudeExceeded".to_owned(),
            ContractRevert::AccountAlreadyLinked => "AccountAlreadyLinked".to_owned(),
            ContractRevert::NothingToWithdraw => "NothingToWithdraw".to_owned(),
            ContractRevert::Unknown(hex) => {
                let mut s = labelled("Unknown(", hex.as_str());
                s.append(")");
                s
            },
        }
    }
}

/// Errors from Ethereum JSON-RPC and contract interactions.
#[derive(Debug, Clone, PartialEq, Eq)]
pub enum EthError {
    /// Transport-level failure or rate limiting. Transient.
    RpcUnreachable(String),
    /// Transaction reverted with a decoded contract revert reason.
    Reverted(ContractRevert),
    /// Nonce too low or replacement transaction underpriced. Transient.
    NonceCollision(String),
    /// Execution consumed all gas, or the node rejected the gas amount.
    OutOfGas(String),
    /// Wallet balance insufficient for gas and value.
    InsufficientFunds(String),
    /// Our gas safety policy rejected the transaction before sending.
    /// Transient: retry when gas conditions improve.
    GasSafetyLimit(String),
    /// The node answered with an error that is neither a revert nor a known
    /// execution-layer rejection.
    UnexpectedRpcResponse(String),
    /// ABI encoding or decoding failure. Never transient.
    AbiError(String),
    /// Our own serialization of call data failed. Never transient.
    SerializationError(String),
}

impl EthError {
    /// The text `Display` shows for this error.
    pub open spec fn display(self) -> Seq<char> {
        match self {
            EthError::RpcUnreachable(m) => "rpc unreachable: "@ + m@,
            EthError::Reverted(r) => "reverted: "@ + r.display(),
            EthError::NonceCollision(m) => "nonce collision: "@ + m@,
            EthError::OutOfGas(m) => "out of gas: "@ + m@,
            EthError::InsufficientFunds(m) => "insufficient funds: "@ + m@,
            EthError::GasSafetyLimit(m) => "gas safety limit: "@ + m@,
            EthError::UnexpectedRpcResponse(m) => "unexpected rpc response: "@ + m@,
            EthError::AbiError(m) => "abi error: "@ + m@,
            EthError::SerializationError(m) => "serialization error: "@ + m@,
        }
    }

    /// The text `Display` shows for this error.
    pub fn to_string(&self) -> (s: String)
        ensures
            s@ == self.display(),
    {
        match self {
            EthError::RpcUnreachable(m) => labelled("rpc unreachable: ", m.as_str()),
            EthError::Reverted(r) => {
                let t = r.to_string();
                labelled("reverted: ", t.as_str())
            },
            EthError::NonceCollision(m) => labelled("nonce collision: ", m.as_str()),
            EthError::OutOfGas(m) => labelled("out of gas: ", m.as_str()),
            EthError::InsufficientFunds(m) => labelled("insufficient funds: ", m.as_str()),
            EthError::GasSafetyLimit(m) => labelled("gas safety limit: ", m.as_str()),
            EthError::UnexpectedRpcResponse(m) => labelled("unexpected rpc response: ", m.as_str()),
            EthError::AbiError(m) => labelled("abi error: ", m.as_str()),
            EthError::SerializationError(m) => labelled("serialization error: ", m.as_str()),
        }
    }

    /// Whether the error is transient and worth retrying with backoff.
    pub open spec fn retryable(self) -> bool {
        ||| self is RpcUnreachable
        ||| self is NonceCollision
        ||| self is UnexpectedRpcResponse
        ||| self is GasSafetyLimit
    }

    /// Returns `true` for errors that are transient and worth retrying with
    /// backoff, `false` for permanent failures where retrying would waste gas
    /// or indicate a code or configuration bug.
    pub fn is_retryable(&self) -> (r: bool)
        ensures
            r == self.retryable(),
    {
        match self {
            EthError::RpcUnreachable(_) => true,
            EthError::NonceCollision(_) => true,
            EthError::UnexpectedRpcResponse(_) => true,
            EthError::GasSafetyLimit(_) => true,
            _ => false,
        }
    }
}

/// The reason attached to a failed receipt that did not run out of gas.
pub open spec fn receipt_failure_reason() -> Seq<char> {
    "receipt failed, no revert data (simulate with eth_call before send)"@
}

/// Classifies a failed transaction receipt: out of gas exactly when the
/// execution consumed the whole gas limit, otherwise a revert whose reason
/// was not available on the receipt.
pub fn classify_receipt_failure(gas_used: u64, gas_limit: u64) -> (e: EthError)
    ensures
        gas_used == gas_limit ==> (e matches EthError::OutOfGas(m) && m@
            == "execution consumed all gas ("@ + decimal(gas_limit as nat) + ")"@),
        gas_used != gas_limit ==> (e matches EthError::Reverted(ContractRevert::Unknown(m)) && m@
            == receipt_failure_reason()),
        !e.retryable(),
{
    if gas_used == gas_limit {
        let mut s = "execution consumed all gas (".to_owned();
        push_decimal(&mut s, gas_limit as u128);
        s.append(")");
        EthError::OutOfGas(s)
    } else {
        EthError::Reverted(
            ContractRevert::Unknown(
                "receipt failed, no revert data (simulate with eth_call before send)".to_owned(),
            ),
        )
    }
}

// ---------------------------------------------------------------------------
// Plain models of the alloy error hierarchy
// ---------------------------------------------------------------------------
/// A JSON-RPC error object: code, message and the raw JSON of its `data`
/// member.
#[derive(Debug, Clone)]
pub struct RpcErrorPayload {
    pub code: i64,
    pub message: String,
    pub data: Option<String>,
}

/// An RPC call failure (`RpcError<TransportErrorKind>`).
#[derive(Debug, Clone)]
pub enum TransportError {
    /// The server answered with a JSON-RPC error object.
    ErrorResp(RpcErrorPayload),
    /// The transport itself failed; carries the transport error's text.
    Transport(String),
    /// The server answered `null` where a value was expected.
    NullResp,
    /// Any other RPC failure; carries its text.
    Other(String),
}

/// A failure while waiting for a transaction to be confirmed.
#[derive(Debug, Clone)]
pub enum PendingTransactionError {
    /// The RPC call that polls the transaction failed.
    TransportError(TransportError),
    /// The transaction watcher timed out; carries the watcher error's text.
    TxWatcher(String),
    /// Any other failure; carries its text.
    Other(String),
}

/// A contract call failure (`alloy_contract::Error`).
#[derive(Debug, Clone)]
pub enum ContractCallError {
    /// The RPC call failed.
    TransportError(TransportError),
    /// Waiting for the transaction failed.
    PendingTransactionError(PendingTransactionError),
    /// The contract returned no data: the function name and the ABI error text.
    ZeroData(String, String),
    /// ABI encoding or decoding failed; carries the ABI error text.
    AbiError(String),
    /// Any other failure; carries its text.
    Other(String),
}

// ---------------------------------------------------------------------------
// Revert decoding
// ---------------------------------------------------------------------------
/// Revert data decodes as the custom error with `signature` whose arguments
/// are `words` static 32-byte values: the data starts with the error's
/// selector and holds at least one word per argument after it (the
/// non-strict ABI decoder ignores trailing bytes).
pub open spec fn custom_error_matches(data: Seq<u8>, signature: Seq<char>, words: nat) -> bool {
    &&& data.len() >= 4 + 32 * words
    &&& data.take(4) == selector_of(signature)
}

/// The revert for a `require` reason string.
pub open spec fn reason_revert(reason: Seq<char>, r: ContractRevert) -> bool {
    if reason == "Invalid Ledger"@ {
        r == ContractRevert::InvalidLedger
    } else if reason == "Invalid Zkapp Account"@ {
        r == ContractRevert::InvalidAccount
    } else if reason == "Burn so far is greater than the amount to burn"@ {
        r == ContractRevert::BurnAlreadyProcessed
    } else if reason == "To unlock amount is greater than the amount to unlock"@ {
        r == ContractRevert::UnlockAmountExceeded
    } else if reason == "You must send some Ether to lock"@ {
        r == ContractRevert::ZeroLockAmount
    } else if reason == "Must be multiple of smallest bridge unit"@ {
        r == ContractRevert::NotBridgeUnit
    } else if reason == "Total locked exceeds maximum allowed"@ {
        r == ContractRevert::MaxMagnitudeExceeded
    } else if reason == "This Mina account is already linked to a different ETH address"@ {
        r == ContractRevert::AccountAlreadyLinked
    } else if reason == "No ETH to withdraw"@ {
        r == ContractRevert::NothingToWithdraw
    } else {
        r matches ContractRevert::Unknown(m) && m@ == reason
    }
}

/// The revert that revert data decodes to: the first known custom error
/// whose selector it carries, else a known `require` message, else the data
/// as hex.
pub open spec fn revert_from_data(data: Seq<u8>, r: ContractRevert) -> bool {
    if custom_error_matches(data, "MinaProvingSystemIdIsNotValid(bytes32)"@, 1) {
        r == ContractRevert::ProvingSystemIdInvalid
    } else if custom_error_matches(data, "MinaNetworkIsWrong()"@, 0) {
        r == ContractRevert::NetworkMismatch
    } else if custom_error_matches(data, "NewStateIsNotValid()"@, 0) {
        r == ContractRevert::NewStateInvalid
    } else if custom_error_matches(data, "TipStateIsWrong(bytes32,bytes32)"@, 2) {
        r == ContractRevert::TipStateWrong
    } else if custom_error_matches(data, "AccountIsNotValid(bytes32)"@, 1) {
        r == ContractRevert::AccountIsNotValid
    } else if custom_error_matches(data, "MinaAccountProvingSystemIdIsNotValid(bytes32)"@, 1) {
        r == ContractRevert::AccountProvingSystemIdInvalid
    } else if custom_error_matches(data, "AlignedContractsNotConfigured()"@, 0) {
        r == ContractRevert::ContractsNotConfigured
    } else if custom_error_matches(data, "ZeroAddress()"@, 0) {
        r == ContractRevert::ZeroAddress
    } else if custom_error_matches(data, "NotBridgeOperator()"@, 0) {
        r == ContractRevert::NotBridgeOperator
    } else if revert_reason(data) is Some {
        reason_revert(revert_reason(data)->0, r)
    } else {
        r matches ContractRevert::Unknown(m) && m@ == hex_lower(data)
    }
}

/// Whether `data` decodes as the custom error with `signature` and `words`
/// 32-byte arguments.
fn decodes_as(data: &Vec<u8>, signature: &str, words: usize) -> (r: bool)
    requires
        words <= 2,
    ensures
        r == custom_error_matches(data@, signature@, words as nat),
{
    if data.len() < 4 + 32 * words {
        return false;
    }
    let sel = selector(signature);
    let same = data[0] == sel[0] && data[1] == sel[1] && data[2] == sel[2] && data[3] == sel[3];
    proof {
        if same {
            assert(data@.take(4) == sel@);
        } else {
            assert(data@.take(4) != sel@) by {
                if data@.take(4) == sel@ {
                    assert(data@.take(4)[0] == sel@[0]);
                    assert(data@.take(4)[1] == sel@[1]);
                    assert(data@.take(4)[2] == sel@[2]);
                    assert(data@.take(4)[3] == sel@[3]);
                }
            }
        }
    }
    same
}

/// The revert for a `require` reason string.
fn revert_for_reason(reason: String) -> (r: ContractRevert)
    ensures
        reason_revert(reason@, r),
{
    let s = reason.as_str();
    if str_eq(s, "Invalid Ledger") {
        ContractRevert::InvalidLedger
    } else if str_eq(s, "Invalid Zkapp Account") {
        ContractRevert::InvalidAccount
    } else if str_eq(s, "Burn so far is greater than the amount to burn") {
        ContractRevert::BurnAlreadyProcessed
    } else if str_eq(s, "To unlock amount is greater than the amount to unlock") {
        ContractRevert::UnlockAmountExceeded
    } else if str_eq(s, "You must send some Ether to lock") {
        ContractRevert::ZeroLockAmount
    } else if str_eq(s, "Must be multiple of smallest bridge unit") {
        ContractRevert::NotBridgeUnit
    } else if str_eq(s, "Total locked exceeds maximum allowed") {
        ContractRevert::MaxMagnitudeExceeded
    } else if str_eq(s, "This Mina account is already linked to a different ETH address") {
        ContractRevert::AccountAlreadyLinked
    } else if str_eq(s, "No ETH to withdraw") {
        ContractRevert::NothingToWithdraw
    } else {
        ContractRevert::Unknown(reason)
    }
}

/// Decodes revert data into a bridge contract revert.
pub fn decode_revert(data: &Vec<u8>) -> (r: ContractRevert)
    ensures
        revert_from_data(data@, r),
{
    if decodes_as(data, "MinaProvingSystemIdIsNotValid(bytes32)", 1) {
        ContractRevert::ProvingSystemIdInvalid
    } else if decodes_as(data, "MinaNetworkIsWrong()", 0) {
        ContractRevert::NetworkMismatch
    } else if decodes_as(data, "NewStateIsNotValid()", 0) {
        ContractRevert::NewStateInvalid
    } else if decodes_as(data, "TipStateIsWrong(bytes32,bytes32)", 2) {
        ContractRevert::TipStateWrong
    } else if decodes_as(data, "AccountIsNotValid(bytes32)", 1) {
        ContractRevert::AccountIsNotValid
    } else if decodes_as(data, "MinaAccountProvingSystemIdIsNotValid(bytes32)", 1) {
        ContractRevert::AccountProvingSystemIdInvalid
    } else if decodes_as(data, "AlignedContractsNotConfigured()", 0) {
        ContractRevert::ContractsNotConfigured
    } else if decodes_as(data, "ZeroAddress()", 0) {
        ContractRevert::ZeroAddress
    } else if decodes_as(data, "NotBridgeOperator()", 0) {
        ContractRevert::NotBridgeOperator
    } else {
        match decode_revert_reason(data.as_slice()) {
            Some(reason) => revert_for_reason(reason),
            None => ContractRevert::Unknown(hex_encode(data.as_slice())),
        }
    }
}

/// The revert carried by a JSON-RPC error payload, if it carries revert data.
pub open spec fn payload_revert(payload: RpcErrorPayload, r: Option<ContractRevert>) -> bool {
    match payload_revert_data(payload.message@, opt_view(payload.data)) {
        None => r is None,
        Some(d) => r is Some && revert_from_data(d, r->0),
    }
}

/// Attempts to decode contract revert data from a JSON-RPC error payload.
fn classify_revert_from_payload(payload: &RpcErrorPayload) -> (r: Option<ContractRevert>)
    ensures
        payload_revert(*payload, r),
{
    let data = match &payload.data {
        Some(d) => Some(d.as_str()),
        None => None,
    };
    match revert_data(payload.message.as_str(), data) {
        Some(bytes) => Some(decode_revert(&bytes)),
        None => None,
    }
}

// ---------------------------------------------------------------------------
// Classification
// ---------------------------------------------------------------------------
/// How a JSON-RPC error payload is classified: revert data first, then rate
/// limiting, then the `-32000` execution-layer rejections told apart by
/// their (lowercased) message, else an unexpected response.
pub open spec fn payload_classified(p: RpcErrorPayload, e: EthError) -> bool {
    let lower = lowercase(p.message@);
    if payload_revert_data(p.message@, opt_view(p.data)) is Some {
        e matches EthError::Reverted(c) && revert_from_data(
            payload_revert_data(p.message@, opt_view(p.data))->0,
            c,
        )
    } else if payload_is_retry_err(p.code, p.message@) {
        e matches EthError::RpcUnreachable(m) && m@ == "rate limited: "@ + p.message@
    } else if p.code == -32000 && (has_substring(lower, "nonce too low"@) || has_substring(
        lower,
        "replacement transaction underpriced"@,
    )) {
        e matches EthError::NonceCollision(m) && m@ == p.message@
    } else if p.code == -32000 && has_substring(lower, "insufficient funds"@) {
        e matches EthError::InsufficientFunds(m) && m@ == p.message@
    } else if p.code == -32000 && (has_substring(lower, "gas required exceeds allowance"@)
        || has_substring(lower, "intrinsic gas too low"@)) {
        e matches EthError::OutOfGas(m) && m@ == p.message@
    } else {
        e matches EthError::UnexpectedRpcResponse(m) && m@ == "JSON-RPC error "@ + int_text(
            p.code as int,
        ) + ": "@ + p.message@
    }
}

/// Classifies a JSON-RPC error payload.
pub fn classify_error_payload(payload: RpcErrorPayload) -> (e: EthError)
    ensures
        payload_classified(payload, e),
{
    if let Some(revert) = classify_revert_from_payload(&payload) {
        return EthError::Reverted(revert);
    }
    if is_retry_err(payload.code, payload.message.as_str()) {
        return EthError::RpcUnreachable(labelled("rate limited: ", payload.message.as_str()));
    }
    if payload.code == -32000 {
        let lower = to_lowercase(payload.message.as_str());
        let l = lower.as_str();
        if contains(l, "nonce too low") || contains(l, "replacement transaction underpriced") {
            return EthError::NonceCollision(payload.message);
        }
        if contains(l, "insufficient funds") {
            return EthError::InsufficientFunds(payload.message);
        }
        if contains(l, "gas required exceeds allowance") || contains(l, "intrinsic gas too low") {
            return EthError::OutOfGas(payload.message);
        }
    }
    let mut s = "JSON-RPC error ".to_owned();
    push_int(&mut s, payload.code as i128);
    s.append(": ");
    s.append(payload.message.as_str());
    EthError::UnexpectedRpcResponse(s)
}

/// How an RPC failure is classified.
pub open spec fn transport_classified(t: TransportError, e: EthError) -> bool {
    match t {
        TransportError::ErrorResp(p) => payload_classified(p, e),
        TransportError::Transport(m) => e matches EthError::RpcUnreachable(x) && x@ == m@,
        TransportError::NullResp => e matches EthError::UnexpectedRpcResponse(x) && x@
            == "null response"@,
        TransportError::Other(m) => e matches EthError::UnexpectedRpcResponse(x) && x@ == m@,
    }
}

/// Classifies an RPC failure: error responses by their payload, transport
/// failures as unreachable, anything else as an unexpected response.
pub fn classify_transport_error(t: TransportError) -> (e: EthError)
    ensures
        transport_classified(t, e),
{
    match t {
        TransportError::ErrorResp(p) => classify_error_payload(p),
        TransportError::Transport(m) => EthError::RpcUnreachable(m),
        TransportError::NullResp => EthError::UnexpectedRpcResponse("null response".to_owned()),
        TransportError::Other(m) => EthError::UnexpectedRpcResponse(m),
    }
}

/// How a pending-transaction failure is classified.
pub open spec fn pending_tx_classified(p: PendingTransactionError, e: EthError) -> bool {
    match p {
        PendingTransactionError::TransportError(t) => transport_classified(t, e),
        PendingTransactionError::TxWatcher(m) => e matches EthError::UnexpectedRpcResponse(x)
            && x@ == "tx watcher timeout: "@ + m@,
        PendingTransactionError::Other(m) => e matches EthError::UnexpectedRpcResponse(x) && x@
            == m@,
    }
}

/// Classifies a failure while awaiting a transaction's confirmation.
fn classify_pending_tx_error(p: PendingTransactionError) -> (e: EthError)
    ensures
        pending_tx_classified(p, e),
{
    match p {
        PendingTransactionError::TransportError(t) => classify_transport_error(t),
        PendingTransactionError::TxWatcher(m) => EthError::UnexpectedRpcResponse(
            labelled("tx watcher timeout: ", m.as_str()),
        ),
        PendingTransactionError::Other(m) => EthError::UnexpectedRpcResponse(m),
    }
}

/// How a contract call failure is classified.
pub open spec fn contract_call_classified(c: ContractCallError, e: EthError) -> bool {
    match c {
        ContractCallError::TransportError(t) => transport_classified(t, e),
        ContractCallError::PendingTransactionError(p) => pending_tx_classified(p, e),
        ContractCallError::ZeroData(f, a) => e matches EthError::Reverted(
            ContractRevert::Unknown(x),
        ) && x@ == "zero data from "@ + f@ + ": "@ + a@,
        ContractCallError::AbiError(a) => e matches EthError::AbiError(x) && x@ == a@,
        ContractCallError::Other(m) => e matches EthError::UnexpectedRpcResponse(x) && x@ == m@,
    }
}

/// Classifies a contract call failure.
pub fn classify_contract_call_error(c: ContractCallError) -> (e: EthError)
    ensures
        contract_call_classified(c, e),
{
    match c {
        ContractCallError::TransportError(t) => classify_transport_error(t),
        ContractCallError::PendingTransactionError(p) => classify_pending_tx_error(p),
        ContractCallError::ZeroData(f, a) => {
            let mut s = labelled("zero data from ", f.as_str());
            s.append(": ");
            s.append(a.as_str());
            EthError::Reverted(ContractRevert::Unknown(s))
        },
        ContractCallError::AbiError(a) => EthError::AbiError(a),
        ContractCallError::Other(m) => EthError::UnexpectedRpcResponse(m),
    }
}

} // verus!
