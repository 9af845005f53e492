//! Typed error enums for each RPC provider, classified by recovery action
//! rather than by wire format, and the mappings from each provider's
//! native failures into them.
use vstd::prelude::*;
use vstd::string::StringExecFns;

use crate::rpcs::error::{labelled, Error};
use crate::rpcs::eth_errors::EthError;
use crate::text::{contains, decimal, has_substring, lowercase, push_decimal, to_lowercase};

verus! {

// ---------------------------------------------------------------------------
// HTTP failures
// ---------------------------------------------------------------------------
/// What an HTTP client failure tells about itself: which stage failed, the
/// HTTP status when there was one, and its text.
#[derive(Debug, Clone)]
pub struct HttpError {
    /// Decoding the response body failed.
    pub is_decode: bool,
    /// Building the request failed (invalid URL, headers, redirect loop).
    pub is_request: bool,
    /// The server answered with a non-success status.
    pub is_status: bool,
    /// The HTTP status code, when known.
    pub status: Option<u16>,
    /// The error's text.
    pub text: String,
}

/// A 4xx status (`StatusCode::is_client_error`).
pub open spec fn is_client_error(status: Option<u16>) -> bool {
    status matches Some(s) && 400 <= s < 500
}

/// Which category an HTTP failure falls in: 1 malformed response, 2 bad
/// request, 3 unreachable.
pub open spec fn http_category(e: HttpError) -> int {
    if e.is_decode {
        1
    } else if e.is_request {
        2
    } else if e.is_status && is_client_error(e.status) {
        2
    } else {
        3
    }
}

// ---------------------------------------------------------------------------
// Mina daemon
// ---------------------------------------------------------------------------
/// Errors from Mina daemon GraphQL queries and proof assembly.
#[derive(Debug, Clone, PartialEq, Eq)]
pub enum MinaDaemonError {
    /// Network-level failure: connection refused, timeout, DNS, HTTP non-200.
    RpcUnreachable(String),
    /// The GraphQL response contained an `errors` array.
    GraphQLError(String),
    /// The state hash returned by the daemon does not match the expected one.
    StateHashMismatch(String),
    /// Local verification rejected the assembled proof.
    LocalVerificationFailed(String),
    /// The requested block height is beyond what the daemon can serve.
    BlockTooOld(String),
    /// The daemon's transition frontier has no block at the requested height.
    BlockNotInFrontier(String),
    /// The account or its membership proof was not found.
    AccountNotFound(String),
    /// The response was structurally unexpected.
    MalformedResponse(String),
    /// We constructed a bad request (or the server answered 4xx).
    BadRequest(String),
    /// Our own serialization of assembled proof data failed.
    SerializationError(String),
}

impl MinaDaemonError {
    /// The text `Display` shows for this error.
    pub open spec fn display(self) -> Seq<char> {
        match self {
            MinaDaemonError::RpcUnreachable(m) => "rpc unreachable: "@ + m@,
            MinaDaemonError::GraphQLError(m) => "graphql error: "@ + m@,
            MinaDaemonError::StateHashMismatch(m) => "state hash mismatch: "@ + m@,
            MinaDaemonError::LocalVerificationFailed(m) => "local verification failed: "@ + m@,
            MinaDaemonError::BlockTooOld(m) => "block too old: "@ + m@,
            MinaDaemonError::BlockNotInFrontier(m) => "block not in frontier: "@ + m@,
            MinaDaemonError::AccountNotFound(m) => "account not found: "@ + m@,
            MinaDaemonError::MalformedResponse(m) => "malformed response: "@ + m@,
            MinaDaemonError::BadRequest(m) => "bad request: "@ + m@,
            MinaDaemonError::SerializationError(m) => "serialization error: "@ + m@,
        }
    }

    /// The text `Display` shows for this error.
    pub fn to_string(&self) -> (s: String)
        ensures
            s@ == self.display(),
    {
        match self {
            MinaDaemonError::RpcUnreachable(m) => labelled("rpc unreachable: ", m.as_str()),
            MinaDaemonError::GraphQLError(m) => labelled("graphql error: ", m.as_str()),
            MinaDaemonError::StateHashMismatch(m) => labelled("state hash mismatch: ", m.as_str()),
            MinaDaemonError::LocalVerificationFailed(m) => labelled(
                "local verification failed: ",
                m.as_str(),
            ),
            MinaDaemonError::BlockTooOld(m) => labelled("block too old: ", m.as_str()),
            MinaDaemonError::BlockNotInFrontier(m) => labelled(
                "block not in frontier: ",
                m.as_str(),
            ),
            MinaDaemonError::AccountNotFound(m) => labelled("account not found: ", m.as_str()),
            MinaDaemonError::MalformedResponse(m) => labelled("malformed response: ", m.as_str()),
            MinaDaemonError::BadRequest(m) => labelled("bad request: ", m.as_str()),
            MinaDaemonError::SerializationError(m) => labelled(
                "serialization error: ",
                m.as_str(),
            ),
        }
    }

    /// Classifies an HTTP client failure: body decoding failures are
    /// malformed responses, request construction failures and 4xx answers
    /// are bad requests, everything else is unreachable.
    pub fn from_http(e: HttpError) -> (r: MinaDaemonError)
        ensures
            http_category(e) == 1 ==> r == MinaDaemonError::MalformedResponse(e.text),
            http_category(e) == 2 ==> r == MinaDaemonError::BadRequest(e.text),
            http_category(e) == 3 ==> r == MinaDaemonError::RpcUnreachable(e.text),
    {
        if e.is_decode {
            MinaDaemonError::MalformedResponse(e.text)
        } else if e.is_request {
            MinaDaemonError::BadRequest(e.text)
        } else if e.is_status {
            if let Some(status) = e.status {
                if 400 <= status && status < 500 {
                    return MinaDaemonError::BadRequest(e.text);
                }
            }
            MinaDaemonError::RpcUnreachable(e.text)
        } else {
            MinaDaemonError::RpcUnreachable(e.text)
        }
    }
}

// ---------------------------------------------------------------------------
// Mina archive node
// ---------------------------------------------------------------------------
/// Errors from Mina archive node GraphQL queries.
#[derive(Debug, Clone, PartialEq, Eq)]
pub enum MinaArchiveError {
    /// Network-level failure: connection refused, timeout, DNS, HTTP non-200.
    RpcUnreachable(String),
    /// The GraphQL response contained an `errors` array.
    GraphQLError(String),
    /// The response was structurally unexpected.
    MalformedResponse(String),
    /// We constructed a bad request (or the server answered 4xx).
    BadRequest(String),
}

impl MinaArchiveError {
    /// The text `Display` shows for this error.
    pub open spec fn display(self) -> Seq<char> {
        match self {
            MinaArchiveError::RpcUnreachable(m) => "rpc unreachable: "@ + m@,
            MinaArchiveError::GraphQLError(m) => "graphql error: "@ + m@,
            MinaArchiveError::MalformedResponse(m) => "malformed response: "@ + m@,
            MinaArchiveError::BadRequest(m) => "bad request: "@ + m@,
        }
    }

    /// The text `Display` shows for this error.
    pub fn to_string(&self) -> (s: String)
        ensures
            s@ == self.display(),
    {
        match self {
            MinaArchiveError::RpcUnreachable(m) => labelled("rpc unreachable: ", m.as_str()),
            MinaArchiveError::GraphQLError(m) => labelled("graphql error: ", m.as_str()),
            MinaArchiveError::MalformedResponse(m) => labelled("malformed response: ", m.as_str()),
            MinaArchiveError::BadRequest(m) => labelled("bad request: ", m.as_str()),
        }
    }

    /// Classifies an HTTP client failure the same way as for the daemon.
    pub fn from_http(e: HttpError) -> (r: MinaArchiveError)
        ensures
            http_category(e) == 1 ==> r == MinaArchiveError::MalformedResponse(e.text),
            http_category(e) == 2 ==> r == MinaArchiveError::BadRequest(e.text),
            http_category(e) == 3 ==> r == MinaArchiveError::RpcUnreachable(e.text),
    {
        if e.is_decode {
            MinaArchiveError::MalformedResponse(e.text)
        } else if e.is_request {
            MinaArchiveError::BadRequest(e.text)
        } else if e.is_status {
            if let Some(status) = e.status {
                if 400 <= status && status < 500 {
                    return MinaArchiveError::BadRequest(e.text);
                }
            }
            MinaArchiveError::RpcUnreachable(e.text)
        } else {
            MinaArchiveError::RpcUnreachable(e.text)
        }
    }
}

impl Error {
    /// The generic error carrying a daemon error's text.
    pub fn from_daemon_error(e: &MinaDaemonError) -> (r: Error)
        ensures
            r.0@ == e.display(),
    {
        Error(e.to_string())
    }

    /// The generic error carrying an archive error's text.
    pub fn from_archive_error(e: &MinaArchiveError) -> (r: Error)
        ensures
            r.0@ == e.display(),
    {
        Error(e.to_string())
    }
}

// ---------------------------------------------------------------------------
// Aligned
// ---------------------------------------------------------------------------
/// Errors from Aligned batcher submission and on-chain verification checks,
/// grouped by recovery action.
#[derive(Debug, Clone, PartialEq, Eq)]
pub enum AlignedError {
    /// Network-level failure. Transient: retry with backoff.
    RpcUnreachable(String),
    /// The batcher rejected the submission for a transient account-state
    /// reason. Transient: retry with a fresh nonce and fee.
    BatcherRejected(String),
    /// The batch did not land on chain. Transient: the proof is still valid.
    BatchFailed(String),
    /// The encoded proof exceeds the batcher's size limit. Not transient.
    PayloadTooLarge(String),
    /// The batcher or verifier rejected the proof. Not transient.
    ProofRejected(String),
    /// SDK-level configuration error. Needs human intervention.
    ConfigurationError(String),
    /// Wallet or signer error.
    WalletError(String),
    /// Our code produced bad data for the SDK.
    DataError(String),
    /// Local filesystem failure.
    IoError(String),
    /// Reading the batch state from the service manager contract failed.
    BatcherContractCallFailed(EthError),
    /// An error that cannot be classified from its type alone.
    Unclassified(String),
}

impl AlignedError {
    /// The text `Display` shows for this error.
    pub open spec fn display(self) -> Seq<char> {
        match self {
            AlignedError::RpcUnreachable(m) => "rpc unreachable: "@ + m@,
            AlignedError::BatcherRejected(m) => "batcher rejected: "@ + m@,
            AlignedError::BatchFailed(m) => "batch failed: "@ + m@,
            AlignedError::PayloadTooLarge(m) => "payload too large: "@ + m@,
            AlignedError::ProofRejected(m) => "proof rejected: "@ + m@,
            AlignedError::ConfigurationError(m) => "configuration error: "@ + m@,
            AlignedError::WalletError(m) => "wallet error: "@ + m@,
            AlignedError::DataError(m) => "data error: "@ + m@,
            AlignedError::IoError(m) => "io error: "@ + m@,
            AlignedError::BatcherContractCallFailed(e) => "batcher contract call failed: "@
                + e.display(),
            AlignedError::Unclassified(m) => "unclassified: "@ + m@,
        }
    }

    /// The text `Display` shows for this error.
    pub fn to_string(&self) -> (s: String)
        ensures
            s@ == self.display(),
    {
        match self {
            AlignedError::RpcUnreachable(m) => labelled("rpc unreachable: ", m.as_str()),
            AlignedError::BatcherRejected(m) => labelled("batcher rejected: ", m.as_str()),
            AlignedError::BatchFailed(m) => labelled("batch failed: ", m.as_str()),
            AlignedError::PayloadTooLarge(m) => labelled("payload too large: ", m.as_str()),
            AlignedError::ProofRejected(m) => labelled("proof rejected: ", m.as_str()),
            AlignedError::ConfigurationError(m) => labelled("configuration error: ", m.as_str()),
            AlignedError::WalletError(m) => labelled("wallet error: ", m.as_str()),
            AlignedError::DataError(m) => labelled("data error: ", m.as_str()),
            AlignedError::IoError(m) => labelled("io error: ", m.as_str()),
            AlignedError::BatcherContractCallFailed(e) => {
                let t = e.to_string();
                labelled("batcher contract call failed: ", t.as_str())
            },
            AlignedError::Unclassified(m) => labelled("unclassified: ", m.as_str()),
        }
    }
}

/// The failures the Aligned SDK reports when submitting a proof, each with
/// the text of its payload as the SDK renders it.
#[derive(Debug, Clone)]
pub enum SubmitError {
    WebSocketConnectionError(String),
    WebSocketClosedUnexpectedlyError(String),
    EthereumProviderError(String),
    NoResponseFromBatcher,
    GetNonceError(String),
    BatchVerificationTimeout { timeout_seconds: u64 },
    BatchSubmissionFailed(String),
    BatchVerifiedEventStreamError(String),
    /// The path (as displayed) and the IO error's text.
    IoError(String, String),
    ProofTooLarge,
    /// The rejection reason, debug-formatted.
    InvalidProof(String),
    AddToBatchError,
    InvalidProofInclusionData,
    ProofQueueFlushed,
    InvalidNonce,
    InvalidMaxFee,
    /// The address, debug-formatted.
    InsufficientBalance(String),
    BatchQueueLimitExceededError,
    ProofReplaced,
    UserFundsUnlocked,
    UnexpectedBatcherResponse(String),
    InvalidReplacementMessage,
    InvalidChainId,
    UnsupportedProvingSystem(String),
    InvalidEthereumAddress(String),
    MissingRequiredParameter(String),
    /// The expected and the actual address, debug-formatted.
    InvalidPaymentServiceAddress(String, String),
    InvalidSignature,
    EmptyVerificationDataCommitments,
    EmptyVerificationDataList,
    SerializationError(String),
    HexDecodingError(String),
    WalletSignerError(String),
    GenericError(String),
    /// A failure the SDK reports under a kind not listed here; carries its
    /// text.
    Unlisted(String),
}

/// The failures the Aligned SDK reports when checking verification.
#[derive(Debug, Clone)]
pub enum VerificationError {
    EthereumProviderError(String),
    EthereumCallError(String),
    /// The address, debug-formatted.
    EthereumNotAContract(String),
    HexDecodingError(String),
    /// A failure reported under a kind not listed here; carries its text.
    Unlisted(String),
}

/// `e` is `variant(prefix + msg)` for the variant selected by `kind`:
/// 0 RpcUnreachable, 1 BatcherRejected, 2 BatchFailed, 3 PayloadTooLarge,
/// 4 ProofRejected, 5 ConfigurationError, 6 WalletError, 7 DataError,
/// 8 IoError, 9 Unclassified.
pub open spec fn aligned_is(e: AlignedError, kind: int, text: Seq<char>) -> bool {
    match e {
        AlignedError::RpcUnreachable(m) => kind == 0 && m@ == text,
        AlignedError::BatcherRejected(m) => kind == 1 && m@ == text,
        AlignedError::BatchFailed(m) => kind == 2 && m@ == text,
        AlignedError::PayloadTooLarge(m) => kind == 3 && m@ == text,
        AlignedError::ProofRejected(m) => kind == 4 && m@ == text,
        AlignedError::ConfigurationError(m) => kind == 5 && m@ == text,
        AlignedError::WalletError(m) => kind == 6 && m@ == text,
        AlignedError::DataError(m) => kind == 7 && m@ == text,
        AlignedError::IoError(m) => kind == 8 && m@ == text,
        AlignedError::Unclassified(m) => kind == 9 && m@ == text,
        AlignedError::BatcherContractCallFailed(_) => false,
    }
}

/// How the SDK's catch-all message is classified, by the fixed messages the
/// SDK is known to use.
pub open spec fn generic_submit_classified(msg: Seq<char>, e: AlignedError) -> bool {
    if has_substring(msg, "too many proofs"@) {
        aligned_is(e, 1, "too many proofs: "@ + msg)
    } else if has_substring(msg, "Server is busy"@) || has_substring(msg, "server is busy"@) {
        aligned_is(e, 1, "server busy: "@ + msg)
    } else if has_substring(msg, "Connection was closed"@) || has_substring(
        msg,
        "connection was closed"@,
    ) {
        aligned_is(e, 0, "connection closed: "@ + msg)
    } else if has_substring(msg, "No response from the batcher"@) {
        aligned_is(e, 0, "no response: "@ + msg)
    } else {
        aligned_is(e, 9, "generic: "@ + msg)
    }
}

/// Classifies the SDK's catch-all `GenericError` message.
pub fn classify_generic_submit_error(msg: String) -> (e: AlignedError)
    ensures
        generic_submit_classified(msg@, e),
{
    let m = msg.as_str();
    if contains(m, "too many proofs") {
        return AlignedError::BatcherRejected(labelled("too many proofs: ", m));
    }
    if contains(m, "Server is busy") || contains(m, "server is busy") {
        return AlignedError::BatcherRejected(labelled("server busy: ", m));
    }
    if contains(m, "Connection was closed") || contains(m, "connection was closed") {
        return AlignedError::RpcUnreachable(labelled("connection closed: ", m));
    }
    if contains(m, "No response from the batcher") {
        return AlignedError::RpcUnreachable(labelled("no response: ", m));
    }
    AlignedError::Unclassified(labelled("generic: ", m))
}

/// An Ethereum provider failure: URL problems are configuration errors,
/// everything else is unreachable.
pub open spec fn provider_error_classified(msg: Seq<char>, e: AlignedError) -> bool {
    if has_substring(msg, "url"@) || has_substring(msg, "Url"@) || has_substring(msg, "parse"@) {
        aligned_is(e, 5, "invalid rpc url: "@ + msg)
    } else {
        aligned_is(e, 0, "ethereum provider: "@ + msg)
    }
}

fn classify_provider_error(msg: &str) -> (e: AlignedError)
    ensures
        provider_error_classified(msg@, e),
{
    if contains(msg, "url") || contains(msg, "Url") || contains(msg, "parse") {
        AlignedError::ConfigurationError(labelled("invalid rpc url: ", msg))
    } else {
        AlignedError::RpcUnreachable(labelled("ethereum provider: ", msg))
    }
}

/// How each SDK submission failure is classified.
pub open spec fn submit_classified(s: SubmitError, e: AlignedError) -> bool {
    match s {
        SubmitError::WebSocketConnectionError(m) => aligned_is(e, 0, "websocket: "@ + m@),
        SubmitError::WebSocketClosedUnexpectedlyError(m) => aligned_is(
            e,
            0,
            "websocket closed: "@ + m@,
        ),
        SubmitError::EthereumProviderError(m) => provider_error_classified(m@, e),
        SubmitError::NoResponseFromBatcher => aligned_is(e, 0, "no response from batcher"@),
        SubmitError::GetNonceError(m) => aligned_is(e, 0, "get nonce: "@ + m@),
        SubmitError::BatchVerificationTimeout { timeout_seconds } => aligned_is(
            e,
            2,
            "verification timeout: "@ + decimal(timeout_seconds as nat) + "s"@,
        ),
        SubmitError::BatchSubmissionFailed(m) => aligned_is(
            e,
            2,
            "on-chain submission failed: "@ + m@,
        ),
        SubmitError::BatchVerifiedEventStreamError(m) => aligned_is(
            e,
            2,
            "event stream broke: "@ + m@,
        ),
        SubmitError::IoError(p, m) => aligned_is(e, 8, p@ + ": "@ + m@),
        SubmitError::ProofTooLarge => aligned_is(e, 3, "proof exceeds batcher size limit"@),
        SubmitError::InvalidProof(m) => aligned_is(e, 4, "invalid proof: "@ + m@),
        SubmitError::AddToBatchError => aligned_is(e, 4, "add to batch rejected"@),
        SubmitError::InvalidProofInclusionData => aligned_is(
            e,
            4,
            "invalid proof inclusion data"@,
        ),
        SubmitError::ProofQueueFlushed => aligned_is(e, 1, "proof queue flushed"@),
        SubmitError::InvalidNonce => aligned_is(e, 1, "invalid nonce"@),
        SubmitError::InvalidMaxFee => aligned_is(e, 1, "invalid max fee"@),
        SubmitError::InsufficientBalance(a) => aligned_is(
            e,
            1,
            "insufficient balance for "@ + a@,
        ),
        SubmitError::BatchQueueLimitExceededError => aligned_is(
            e,
            1,
            "batch queue limit exceeded"@,
        ),
        SubmitError::ProofReplaced => aligned_is(e, 1, "proof replaced by newer submission"@),
        SubmitError::UserFundsUnlocked => aligned_is(
            e,
            1,
            "user funds unlocked during submission"@,
        ),
        SubmitError::UnexpectedBatcherResponse(m) => aligned_is(
            e,
            1,
            "unexpected batcher response: "@ + m@,
        ),
        SubmitError::InvalidReplacementMessage => aligned_is(
            e,
            1,
            "invalid replacement message"@,
        ),
        SubmitError::InvalidChainId => aligned_is(e, 5, "invalid chain ID"@),
        SubmitError::UnsupportedProvingSystem(m) => aligned_is(
            e,
            5,
            "unsupported proving system: "@ + m@,
        ),
        SubmitError::InvalidEthereumAddress(m) => aligned_is(
            e,
            5,
            "invalid ethereum address: "@ + m@,
        ),
        SubmitError::MissingRequiredParameter(m) => aligned_is(
            e,
            5,
            "missing parameter: "@ + m@,
        ),
        SubmitError::InvalidPaymentServiceAddress(x, y) => aligned_is(
            e,
            5,
            "payment service address mismatch: expected "@ + x@ + ", got "@ + y@,
        ),
        SubmitError::InvalidSignature => aligned_is(e, 6, "invalid wallet signature"@),
        SubmitError::EmptyVerificationDataCommitments => aligned_is(
            e,
            7,
            "empty verification data commitments"@,
        ),
        SubmitError::EmptyVerificationDataList => aligned_is(
            e,
            7,
            "empty verification data list"@,
        ),
        SubmitError::SerializationError(m) => aligned_is(e, 7, "serialization: "@ + m@),
        SubmitError::HexDecodingError(m) => aligned_is(e, 7, "hex decoding: "@ + m@),
        SubmitError::WalletSignerError(m) => aligned_is(e, 6, "wallet signer: "@ + m@),
        SubmitError::GenericError(m) => generic_submit_classified(m@, e),
        SubmitError::Unlisted(m) => aligned_is(e, 9, "unclassified submit: "@ + m@),
    }
}

/// Whether the batcher turned a submission away for the state of the
/// sender's account or of its queue: a stale nonce, a fee or balance too
/// low, a full or flushed queue, a proof replaced by a newer one, or funds
/// unlocked meanwhile.
pub open spec fn account_state_rejection(s: SubmitError) -> bool {
    ||| s is InvalidNonce
    ||| s is InvalidMaxFee
    ||| s is InsufficientBalance
    ||| s is BatchQueueLimitExceededError
    ||| s is ProofQueueFlushed
    ||| s is ProofReplaced
    ||| s is UserFundsUnlocked
}

/// Whether a submit error says that the proof itself is invalid.
pub open spec fn says_proof_invalid(s: SubmitError) -> bool {
    s is InvalidProof || s is AddToBatchError || s is InvalidProofInclusionData
}

/// A submission turned away for the state of the account or of the queue
/// is a batcher rejection, to be retried with a fresh nonce or fee.
pub proof fn account_state_rejections_are_transient(s: SubmitError, e: AlignedError)
    requires
        submit_classified(s, e),
        account_state_rejection(s),
    ensures
        e is BatcherRejected,
{
}

/// Whether a submit error is a failure to reach the batcher or the node: a
/// websocket that failed or closed, no response, or no nonce.
pub open spec fn unreachable_failure(s: SubmitError) -> bool {
    ||| s is WebSocketConnectionError
    ||| s is WebSocketClosedUnexpectedlyError
    ||| s is NoResponseFromBatcher
    ||| s is GetNonceError
}

/// Whether a submit error says that a batch holding the proof did not land:
/// the on-chain submission failed, verification timed out, or the event
/// stream broke.
pub open spec fn batch_did_not_land(s: SubmitError) -> bool {
    s is BatchSubmissionFailed || s is BatchVerificationTimeout || s is BatchVerifiedEventStreamError
}

/// Whether a submit error is a configuration mistake needing a person.
pub open spec fn configuration_mistake(s: SubmitError) -> bool {
    ||| s is InvalidChainId
    ||| s is UnsupportedProvingSystem
    ||| s is InvalidEthereumAddress
    ||| s is MissingRequiredParameter
    ||| s is InvalidPaymentServiceAddress
}

/// Failures to reach the batcher or the node are unreachability, retried
/// with backoff.
pub proof fn unreachable_failures_are_unreachable(s: SubmitError, e: AlignedError)
    requires
        submit_classified(s, e),
        unreachable_failure(s),
    ensures
        e is RpcUnreachable,
{
}

/// A batch that did not land is a batch failure: the proof is still valid
/// and is submitted again.
pub proof fn unlanded_batches_are_batch_failures(s: SubmitError, e: AlignedError)
    requires
        submit_classified(s, e),
    ensures
        e is BatchFailed <==> batch_did_not_land(s),
{
}

/// Configuration mistakes are configuration errors, and an oversized proof
/// is the only payload-size failure.
pub proof fn configuration_and_size_failures(s: SubmitError, e: AlignedError)
    requires
        submit_classified(s, e),
    ensures
        configuration_mistake(s) ==> e is ConfigurationError,
        e is PayloadTooLarge <==> s is ProofTooLarge,
{
}

/// A submission is classified as a rejected proof exactly when the failure
/// says the proof itself is invalid.
pub proof fn only_invalid_proofs_are_rejected(s: SubmitError, e: AlignedError)
    requires
        submit_classified(s, e),
    ensures
        e is ProofRejected <==> says_proof_invalid(s),
{
}

/// Classifies an Aligned SDK submission failure by its kind.
pub fn classify_submit_error(s: SubmitError) -> (e: AlignedError)
    ensures
        submit_classified(s, e),
{
    match s {
        SubmitError::WebSocketConnectionError(m) => AlignedError::RpcUnreachable(
            labelled("websocket: ", m.as_str()),
        ),
        SubmitError::WebSocketClosedUnexpectedlyError(m) => AlignedError::RpcUnreachable(
            labelled("websocket closed: ", m.as_str()),
        ),
        SubmitError::EthereumProviderError(m) => classify_provider_error(m.as_str()),
        SubmitError::NoResponseFromBatcher => AlignedError::RpcUnreachable(
            "no response from batcher".to_owned(),
        ),
        SubmitError::GetNonceError(m) => AlignedError::RpcUnreachable(
            labelled("get nonce: ", m.as_str()),
        ),
        SubmitError::BatchVerificationTimeout { timeout_seconds } => {
            let mut t = "verification timeout: ".to_owned();
            push_decimal(&mut t, timeout_seconds as u128);
            t.append("s");
            AlignedError::BatchFailed(t)
        },
        SubmitError::BatchSubmissionFailed(m) => AlignedError::BatchFailed(
            labelled("on-chain submission failed: ", m.as_str()),
        ),
        SubmitError::BatchVerifiedEventStreamError(m) => AlignedError::BatchFailed(
            labelled("event stream broke: ", m.as_str()),
        ),
        SubmitError::IoError(p, m) => {
            let mut t = p;
            t.append(": ");
            t.append(m.as_str());
            AlignedError::IoError(t)
        },
        SubmitError::ProofTooLarge => AlignedError::PayloadTooLarge(
            "proof exceeds batcher size limit".to_owned(),
        ),
        SubmitError::InvalidProof(m) => AlignedError::ProofRejected(
            labelled("invalid proof: ", m.as_str()),
        ),
        SubmitError::AddToBatchError => AlignedError::ProofRejected(
            "add to batch rejected".to_owned(),
        ),
        SubmitError::InvalidProofInclusionData => AlignedError::ProofRejected(
            "invalid proof inclusion data".to_owned(),
        ),
        SubmitError::ProofQueueFlushed => AlignedError::BatcherRejected(
            "proof queue flushed".to_owned(),
        ),
        SubmitError::InvalidNonce => AlignedError::BatcherRejected("invalid nonce".to_owned()),
        SubmitError::InvalidMaxFee => AlignedError::BatcherRejected("invalid max fee".to_owned()),
        SubmitError::InsufficientBalance(a) => AlignedError::BatcherRejected(
            labelled("insufficient balance for ", a.as_str()),
        ),
        SubmitError::BatchQueueLimitExceededError => AlignedError::BatcherRejected(
            "batch queue limit exceeded".to_owned(),
        ),
        SubmitError::ProofReplaced => AlignedError::BatcherRejected(
            "proof replaced by newer submission".to_owned(),
        ),
        SubmitError::UserFundsUnlocked => AlignedError::BatcherRejected(
            "user funds unlocked during submission".to_owned(),
        ),
        SubmitError::UnexpectedBatcherResponse(m) => AlignedError::BatcherRejected(
            labelled("unexpected batcher response: ", m.as_str()),
        ),
        SubmitError::InvalidReplacementMessage => AlignedError::BatcherRejected(
            "invalid replacement message".to_owned(),
        ),
        SubmitError::InvalidChainId => AlignedError::ConfigurationError(
            "invalid chain ID".to_owned(),
        ),
        SubmitError::UnsupportedProvingSystem(m) => AlignedError::ConfigurationError(
            labelled("unsupported proving system: ", m.as_str()),
        ),
        SubmitError::InvalidEthereumAddress(m) => AlignedError::ConfigurationError(
            labelled("invalid ethereum address: ", m.as_str()),
        ),
        SubmitError::MissingRequiredParameter(m) => AlignedError::ConfigurationError(
            labelled("missing parameter: ", m.as_str()),
        ),
        SubmitError::InvalidPaymentServiceAddress(x, y) => {
            let mut t = labelled("payment service address mismatch: expected ", x.as_str());
            t.append(", got ");
            t.append(y.as_str());
            AlignedError::ConfigurationError(t)
        },
        SubmitError::InvalidSignature => AlignedError::WalletError(
            "invalid wallet signature".to_owned(),
        ),
        SubmitError::EmptyVerificationDataCommitments => AlignedError::DataError(
            "empty verification data commitments".to_owned(),
        ),
        SubmitError::EmptyVerificationDataList => AlignedError::DataError(
            "empty verification data list".to_owned(),
        ),
        SubmitError::SerializationError(m) => AlignedError::DataError(
            labelled("serialization: ", m.as_str()),
        ),
        SubmitError::HexDecodingError(m) => AlignedError::DataError(
            labelled("hex decoding: ", m.as_str()),
        ),
        SubmitError::WalletSignerError(m) => AlignedError::WalletError(
            labelled("wallet signer: ", m.as_str()),
        ),
        SubmitError::GenericError(m) => classify_generic_submit_error(m),
        SubmitError::Unlisted(m) => AlignedError::Unclassified(
            labelled("unclassified submit: ", m.as_str()),
        ),
    }
}

/// How each SDK verification failure is classified. An `eth_call` failure
/// whose lowercased text mentions a revert means the proof is not verified
/// on chain; any other call failure is a network problem.
pub open spec fn verification_classified(v: VerificationError, e: AlignedError) -> bool {
    match v {
        VerificationError::EthereumProviderError(m) => provider_error_classified(m@, e),
        VerificationError::EthereumCallError(m) => {
            let lower = lowercase(m@);
            if has_substring(lower, "revert"@) || has_substring(lower, "execution reverted"@) {
                aligned_is(e, 4, "batch inclusion check reverted: "@ + m@)
            } else {
                aligned_is(e, 0, "verification call failed: "@ + m@)
            }
        },
        VerificationError::EthereumNotAContract(a) => aligned_is(e, 5, "not a contract: "@ + a@),
        VerificationError::HexDecodingError(m) => aligned_is(e, 7, "hex decoding: "@ + m@),
        VerificationError::Unlisted(m) => aligned_is(e, 9, "unclassified verification: "@ + m@),
    }
}

/// Classifies an Aligned SDK verification failure.
pub fn classify_verification_error(v: VerificationError) -> (e: AlignedError)
    ensures
        verification_classified(v, e),
{
    match v {
        VerificationError::EthereumProviderError(m) => classify_provider_error(m.as_str()),
        VerificationError::EthereumCallError(m) => {
            let lower = to_lowercase(m.as_str());
            if contains(lower.as_str(), "revert") || contains(lower.as_str(), "execution reverted") {
                AlignedError::ProofRejected(labelled("batch inclusion check reverted: ", m.as_str()))
            } else {
                AlignedError::RpcUnreachable(labelled("verification call failed: ", m.as_str()))
            }
        },
        VerificationError::EthereumNotAContract(a) => AlignedError::ConfigurationError(
            labelled("not a contract: ", a.as_str()),
        ),
        VerificationError::HexDecodingError(m) => AlignedError::DataError(
            labelled("hex decoding: ", m.as_str()),
        ),
        VerificationError::Unlisted(m) => AlignedError::Unclassified(
            labelled("unclassified verification: ", m.as_str()),
        ),
    }
}

} // verus!
