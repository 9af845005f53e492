//! Mina daemon GraphQL answers and state proof assembly: interpreting each
//! query's reply, locating the proof window of a group finalization block
//! (F_g), and assembling the public inputs of a state proof.
//!
//! The GraphQL transport, base64 decoding and binprot deserialization happen
//! outside; their outcomes arrive here as plain values, and the payloads
//! this module never inspects (proofs, protocol states, accounts, field
//! elements) are carried through as type parameters.
use vstd::prelude::*;
use vstd::string::StringExecFns;

use crate::constants::{BRIDGE_TRANSITION_FRONTIER_LEN, MINA_DAEMON_MAX_QUERYABLE_BLOCKS};
use crate::rpcs::error::labelled;
use crate::rpcs::errors::MinaDaemonError;
use crate::payload::{base64_decoded, decode_base64, Base64Alphabet};
use crate::results::{collect_results, first_error};
use crate::text::{
    contains, decimal, has_substring, join, joined, parse_u64, parse_u64_result, push_decimal,
    str_eq, views,
};

verus! {

/// Extra blocks requested beyond the window when querying the best chain, to
/// absorb the tip advancing between the frontier query and the chain query.
pub const BEST_CHAIN_QUERY_BUFFER: usize = 4;

// ---------------------------------------------------------------------------
// GraphQL replies
// ---------------------------------------------------------------------------
/// A GraphQL reply: the messages of its `errors` array, if present, and its
/// `data`, if present.
#[derive(Debug, Clone)]
pub struct GraphQLReply<T> {
    pub errors: Option<Vec<String>>,
    pub data: Option<T>,
}

/// Why a base64 blob did not yield a value: the base64 decoding or the
/// binprot deserialization failed; each carries the failure's text.
#[derive(Debug, Clone)]
pub enum DecodeFailure {
    Base64(String),
    Binprot(String),
}

/// The reply reports errors: its `errors` array is present and non-empty.
pub open spec fn reports_errors(errors: Option<Vec<String>>) -> bool {
    errors matches Some(v) && v@.len() > 0
}

/// The reported error messages joined by `; `.
pub open spec fn joined_errors(errors: Option<Vec<String>>) -> Seq<char> {
    match errors {
        Some(v) => joined(views(v@), "; "@),
        None => seq![],
    }
}

/// The reported error messages joined by `; `, if the reply reports errors.
pub fn reported_errors(errors: &Option<Vec<String>>) -> (r: Option<String>)
    ensures
        reports_errors(*errors) ==> (r matches Some(s) && s@ == joined_errors(*errors)),
        !reports_errors(*errors) ==> r is None,
{
    match errors {
        Some(v) => {
            if v.len() > 0 {
                Some(join(v, "; "))
            } else {
                None
            }
        },
        None => None,
    }
}

/// The data of a reply: a GraphQL error when it reports errors, otherwise a
/// malformed-response error with the text `missing` when it has no data.
pub fn reply_data<T>(reply: GraphQLReply<T>, missing: &str) -> (r: Result<T, MinaDaemonError>)
    ensures
        reports_errors(reply.errors) ==> (r matches Err(MinaDaemonError::GraphQLError(m)) && m@
            == joined_errors(reply.errors)),
        !reports_errors(reply.errors) ==> match reply.data {
            None => r matches Err(MinaDaemonError::MalformedResponse(m)) && m@ == missing@,
            Some(d) => r == Ok::<T, MinaDaemonError>(d),
        },
{
    if let Some(msgs) = reported_errors(&reply.errors) {
        return Err(MinaDaemonError::GraphQLError(msgs));
    }
    match reply.data {
        Some(d) => Ok(d),
        None => Err(MinaDaemonError::MalformedResponse(missing.to_owned())),
    }
}

/// A decoding failure described with `base64_prefix` or `binprot_prefix`
/// before its text.
pub open spec fn decode_failure_text(
    f: DecodeFailure,
    base64_prefix: Seq<char>,
    binprot_prefix: Seq<char>,
) -> Seq<char> {
    match f {
        DecodeFailure::Base64(m) => base64_prefix + m@,
        DecodeFailure::Binprot(m) => binprot_prefix + m@,
    }
}

pub(crate) fn describe_decode_failure(f: DecodeFailure, base64_prefix: &str, binprot_prefix: &str) -> (s:
    String)
    ensures
        s@ == decode_failure_text(f, base64_prefix@, binprot_prefix@),
{
    match f {
        DecodeFailure::Base64(m) => labelled(base64_prefix, m.as_str()),
        DecodeFailure::Binprot(m) => labelled(binprot_prefix, m.as_str()),
    }
}

/// The protocol state of a `protocolState` query, given the reply with the
/// outcome of decoding its base64 binprot payload.
pub fn protocol_state_from_reply<S>(reply: GraphQLReply<Result<S, DecodeFailure>>) -> (r: Result<
    S,
    MinaDaemonError,
>)
    ensures
        reports_errors(reply.errors) ==> (r matches Err(MinaDaemonError::GraphQLError(m)) && m@
            == joined_errors(reply.errors)),
        !reports_errors(reply.errors) ==> match reply.data {
            None => r matches Err(MinaDaemonError::MalformedResponse(m)) && m@
                == "missing response data"@,
            Some(Err(f)) => r matches Err(MinaDaemonError::MalformedResponse(m)) && m@
                == decode_failure_text(
                f,
                "Couldn't decode state from base64: "@,
                "Couldn't read state binprot: "@,
            ),
            Some(Ok(s)) => r == Ok::<S, MinaDaemonError>(s),
        },
{
    match reply_data(reply, "missing response data") {
        Err(e) => Err(e),
        Ok(Ok(s)) => Ok(s),
        Ok(Err(f)) => Err(
            MinaDaemonError::MalformedResponse(
                describe_decode_failure(
                    f,
                    "Couldn't decode state from base64: ",
                    "Couldn't read state binprot: ",
                ),
            ),
        ),
    }
}

// ---------------------------------------------------------------------------
// Frontier
// ---------------------------------------------------------------------------
/// A block of the frontier query: its state hash and its height as the
/// daemon renders it.
#[derive(Debug, Clone)]
pub struct FrontierBlock {
    pub state_hash: String,
    pub block_height: String,
}

/// A frontier entry: a block's state hash and height.
#[derive(Debug, Clone)]
pub struct FrontierEntry {
    pub state_hash: String,
    pub block_height: u64,
}

/// The GraphQL `maxLength` variable for a requested number of blocks; it
/// must fit the signed 64-bit integer GraphQL carries.
pub fn frontier_query_length(max_length: usize) -> (r: Result<i64, MinaDaemonError>)
    ensures
        max_length <= i64::MAX ==> r == Ok::<i64, MinaDaemonError>(max_length as i64),
        max_length > i64::MAX ==> (r matches Err(MinaDaemonError::BadRequest(m)) && m@
            == "Frontier length conversion failure"@),
{
    if max_length as u128 <= i64::MAX as u128 {
        Ok(max_length as i64)
    } else {
        Err(MinaDaemonError::BadRequest("Frontier length conversion failure".to_owned()))
    }
}

/// All blocks' heights parse as `u64`.
pub open spec fn heights_parse(blocks: Seq<FrontierBlock>) -> bool {
    forall|i: int| 0 <= i < blocks.len() ==> parse_u64_result(#[trigger] blocks[i].block_height@) is Ok
}

/// The entries of the frontier blocks, in the daemon's order (oldest first).
pub open spec fn frontier_entries(blocks: Seq<FrontierBlock>, entries: Seq<FrontierEntry>) -> bool {
    &&& entries.len() == blocks.len()
    &&& forall|i: int|
        0 <= i < blocks.len() ==> {
            &&& (#[trigger] entries[i]).state_hash@ == blocks[i].state_hash@
            &&& parse_u64_result(blocks[i].block_height@) == Ok::<u64, crate::text::IntParseError>(
                entries[i].block_height,
            )
        }
}

/// The transition frontier from a `bestChain` reply: exactly `max_length`
/// blocks, each with its state hash and numeric height.
pub fn frontier_from_reply(max_length: usize, reply: GraphQLReply<Option<Vec<FrontierBlock>>>) -> (r:
    Result<Vec<FrontierEntry>, MinaDaemonError>)
    ensures
        reports_errors(reply.errors) ==> (r matches Err(MinaDaemonError::GraphQLError(m)) && m@
            == joined_errors(reply.errors)),
        !reports_errors(reply.errors) ==> match reply.data {
            None => r matches Err(MinaDaemonError::MalformedResponse(m)) && m@
                == "missing response data"@,
            Some(None) => r matches Err(MinaDaemonError::MalformedResponse(m)) && m@
                == "Missing best chain field"@,
            Some(Some(blocks)) => if blocks@.len() != max_length {
                r matches Err(MinaDaemonError::MalformedResponse(m)) && m@
                    == "Expected "@ + decimal(max_length as nat) + " blocks from frontier query, got "@
                    + decimal(blocks@.len())
            } else if heights_parse(blocks@) {
                r matches Ok(entries) && frontier_entries(blocks@, entries@)
            } else {
                r matches Err(MinaDaemonError::MalformedResponse(m)) && m@
                    == "Block height conversion failure"@
            },
        },
        r matches Ok(entries) ==> entries@.len() == max_length,
{
    let data = match reply_data(reply, "missing response data") {
        Ok(d) => d,
        Err(e) => {
            return Err(e);
        },
    };
    let blocks = match data {
        Some(b) => b,
        None => {
            return Err(MinaDaemonError::MalformedResponse("Missing best chain field".to_owned()));
        },
    };
    if blocks.len() != max_length {
        let mut m = "Expected ".to_owned();
        push_decimal(&mut m, max_length as u128);
        m.append(" blocks from frontier query, got ");
        push_decimal(&mut m, blocks.len() as u128);
        return Err(MinaDaemonError::MalformedResponse(m));
    }
    let mut entries: Vec<FrontierEntry> = Vec::new();
    for i in 0..blocks.len()
        invariant
            !reports_errors(reply.errors),
            reply.data == Some(Some(blocks)),
            blocks@.len() == max_length,
            frontier_entries(blocks@.take(i as int), entries@),
            heights_parse(blocks@.take(i as int)),
    {
        let b = &blocks[i];
        match parse_u64(b.block_height.as_str()) {
            Ok(h) => {
                entries.push(FrontierEntry { state_hash: b.state_hash.clone(), block_height: h });
                assert(blocks@.take(i + 1) == blocks@.take(i as int).push(blocks@[i as int]));
            },
            Err(_) => {
                assert(!heights_parse(blocks@)) by {
                    assert(parse_u64_result(blocks@[i as int].block_height@) is Err);
                }
                return Err(
                    MinaDaemonError::MalformedResponse("Block height conversion failure".to_owned()),
                );
            },
        }
    }
    assert(blocks@.take(blocks@.len() as int) == blocks@);
    Ok(entries)
}

/// The live tip height from a one-block frontier.
pub fn tip_height(frontier: &Vec<FrontierEntry>) -> (r: Result<u64, MinaDaemonError>)
    ensures
        frontier@.len() > 0 ==> r == Ok::<u64, MinaDaemonError>(frontier@[0].block_height),
        frontier@.len() == 0 ==> (r matches Err(MinaDaemonError::MalformedResponse(m)) && m@
            == "Empty frontier response"@),
{
    if frontier.len() == 0 {
        Err(MinaDaemonError::MalformedResponse("Empty frontier response".to_owned()))
    } else {
        Ok(frontier[0].block_height)
    }
}

// ---------------------------------------------------------------------------
// Canonical block at a height
// ---------------------------------------------------------------------------
/// The daemon's message when it cannot answer for a height.
pub open spec fn not_in_frontier_message() -> Seq<char> {
    "Could not find block in transition frontier"@
}

/// The state hash the daemon currently considers canonical at `height`,
/// from a `block(height:)` reply. A reported error mentioning that the block
/// is not in the transition frontier means the daemon cannot answer for this
/// height (not that the block is non-canonical).
pub fn canonical_state_hash_from_reply(height: u64, reply: GraphQLReply<String>) -> (r: Result<
    String,
    MinaDaemonError,
>)
    ensures
        reports_errors(reply.errors) && has_substring(
            joined_errors(reply.errors),
            not_in_frontier_message(),
        ) ==> (r matches Err(MinaDaemonError::BlockNotInFrontier(m)) && m@ == "height "@
            + decimal(height as nat) + ": "@ + joined_errors(reply.errors)),
        reports_errors(reply.errors) && !has_substring(
            joined_errors(reply.errors),
            not_in_frontier_message(),
        ) ==> (r matches Err(MinaDaemonError::GraphQLError(m)) && m@ == joined_errors(
            reply.errors,
        )),
        !reports_errors(reply.errors) ==> match reply.data {
            None => r matches Err(MinaDaemonError::MalformedResponse(m)) && m@ == "block(height:"@
                + decimal(height as nat) + "): no errors but response data is null"@,
            Some(h) => r matches Ok(s) && s@ == h@,
        },
{
    if let Some(joined) = reported_errors(&reply.errors) {
        if contains(joined.as_str(), "Could not find block in transition frontier") {
            let mut m = "height ".to_owned();
            push_decimal(&mut m, height as u128);
            m.append(": ");
            m.append(joined.as_str());
            return Err(MinaDaemonError::BlockNotInFrontier(m));
        }
        return Err(MinaDaemonError::GraphQLError(joined));
    }
    match reply.data {
        Some(h) => Ok(h),
        None => {
            let mut m = "block(height:".to_owned();
            push_decimal(&mut m, height as u128);
            m.append("): no errors but response data is null");
            Err(MinaDaemonError::MalformedResponse(m))
        },
    }
}

// ---------------------------------------------------------------------------
// Best chain candidate
// ---------------------------------------------------------------------------
/// A block of the `bestChain` query: its state hash, snarked ledger hash and
/// the outcome of decoding its protocol state proof (`None` when the reply
/// carries no proof).
#[derive(Debug, Clone)]
pub struct CandidateBlock<P> {
    pub state_hash: String,
    pub ledger_hash: String,
    pub state_proof: Option<Result<P, DecodeFailure>>,
}

/// The state hashes, ledger hashes and proofs of a candidate chain, oldest
/// first.
#[derive(Debug, Clone)]
pub struct CandidateChain<P> {
    pub state_hashes: Vec<String>,
    pub ledger_hashes: Vec<String>,
    pub proofs: Vec<P>,
}

/// Block `i` carries a decoded proof.
pub open spec fn block_proof_ok<P>(b: CandidateBlock<P>) -> bool {
    b.state_proof matches Some(Ok(_))
}

/// The error for the proof of a candidate block that has none decoded.
pub open spec fn block_proof_error<P>(b: CandidateBlock<P>) -> Seq<char> {
    match b.state_proof {
        Some(Err(f)) => decode_failure_text(
            f,
            "Couldn't decode state proof from base64: "@,
            "Couldn't read state proof binprot: "@,
        ),
        _ => "Missing protocol state proof base64"@,
    }
}

/// The error of the first block without a decoded proof, if any.
pub open spec fn first_proof_failure<P>(blocks: Seq<CandidateBlock<P>>) -> Option<Seq<char>>
    decreases blocks.len(),
{
    if blocks.len() == 0 {
        None
    } else if block_proof_ok(blocks[0]) {
        first_proof_failure(blocks.drop_first())
    } else {
        Some(block_proof_error(blocks[0]))
    }
}

/// A candidate chain has no failing block exactly when every block carries
/// a decoded proof.
pub proof fn lemma_no_failure_iff_all_ok<P>(blocks: Seq<CandidateBlock<P>>)
    ensures
        first_proof_failure(blocks) is None <==> forall|j: int|
            0 <= j < blocks.len() ==> block_proof_ok(#[trigger] blocks[j]),
    decreases blocks.len(),
{
    if blocks.len() > 0 {
        lemma_no_failure_iff_all_ok(blocks.drop_first());
        if !block_proof_ok(blocks[0]) {
            assert(!(forall|j: int| 0 <= j < blocks.len() ==> block_proof_ok(#[trigger] blocks[j])));
        } else {
            let rest = blocks.drop_first();
            if forall|j: int| 0 <= j < rest.len() ==> block_proof_ok(#[trigger] rest[j]) {
                assert forall|j: int| 0 <= j < blocks.len() implies block_proof_ok(
                    #[trigger] blocks[j],
                ) by {
                    if j > 0 {
                        assert(blocks[j] == rest[j - 1]);
                    }
                }
            }
            if forall|j: int| 0 <= j < blocks.len() ==> block_proof_ok(#[trigger] blocks[j]) {
                assert forall|j: int| 0 <= j < rest.len() implies block_proof_ok(#[trigger] rest[j]) by {
                    assert(rest[j] == blocks[j + 1]);
                }
            }
        }
    }
}

/// The candidate chain holds the blocks' hashes and proofs, in order.
pub open spec fn chain_of_blocks<P>(blocks: Seq<CandidateBlock<P>>, c: CandidateChain<P>) -> bool {
    &&& c.state_hashes@.len() == blocks.len()
    &&& c.ledger_hashes@.len() == blocks.len()
    &&& c.proofs@.len() == blocks.len()
    &&& forall|i: int|
        0 <= i < blocks.len() ==> {
            &&& (#[trigger] blocks[i]).state_hash@ == c.state_hashes@[i]@
            &&& blocks[i].ledger_hash@ == c.ledger_hashes@[i]@
            &&& blocks[i].state_proof == Some(Ok::<P, DecodeFailure>(c.proofs@[i]))
        }
}

/// The GraphQL `maxLength` variable of the candidate chain query.
pub fn candidate_chain_query_length(max_length: usize) -> (r: Result<i64, MinaDaemonError>)
    ensures
        max_length <= i64::MAX ==> r == Ok::<i64, MinaDaemonError>(max_length as i64),
        max_length > i64::MAX ==> (r matches Err(MinaDaemonError::BadRequest(m)) && m@
            == "max_length conversion failure"@),
{
    if max_length as u128 <= i64::MAX as u128 {
        Ok(max_length as i64)
    } else {
        Err(MinaDaemonError::BadRequest("max_length conversion failure".to_owned()))
    }
}

/// The candidate chain of blocks that must all carry a decoded proof; the
/// first block that does not decides the error message.
fn chain_from_blocks<P>(blocks: Vec<CandidateBlock<P>>) -> (r: Result<CandidateChain<P>, String>)
    ensures
        match r {
            Ok(c) => chain_of_blocks(blocks@, c) && first_proof_failure(blocks@) is None,
            Err(m) => first_proof_failure(blocks@) == Some(m@),
        },
{
    let ghost orig = blocks@;
    let mut state_hashes: Vec<String> = Vec::new();
    let mut ledger_hashes: Vec<String> = Vec::new();
    let mut proofs: Vec<P> = Vec::new();
    let mut rest = blocks;
    let n = rest.len();
    let mut i: usize = 0;
    assert(orig.subrange(0, n as int) == orig);
    while i < n
        invariant
            orig == blocks@,
            n == orig.len(),
            i <= n,
            rest@ == orig.subrange(i as int, n as int),
            chain_of_blocks(
                orig.take(i as int),
                CandidateChain { state_hashes, ledger_hashes, proofs },
            ),
            first_proof_failure(orig) == first_proof_failure(orig.subrange(i as int, n as int)),
        decreases n - i,
    {
        let b = rest.remove(0);
        assert(b == orig[i as int]);
        assert(rest@ == orig.subrange(i + 1, n as int));
        assert(orig.subrange(i as int, n as int).drop_first() == orig.subrange(i + 1, n as int));
        match b.state_proof {
            Some(Ok(p)) => {
                state_hashes.push(b.state_hash);
                ledger_hashes.push(b.ledger_hash);
                proofs.push(p);
                assert(orig.take(i + 1) == orig.take(i as int).push(orig[i as int]));
            },
            None => {
                let m = "Missing protocol state proof base64".to_owned();
                return Err(m);
            },
            Some(Err(f)) => {
                let m = describe_decode_failure(
                    f,
                    "Couldn't decode state proof from base64: ",
                    "Couldn't read state proof binprot: ",
                );
                return Err(m);
            },
        }
        i = i + 1;
    }
    assert(orig.take(n as int) == orig);
    assert(orig.subrange(n as int, n as int).len() == 0);
    Ok(CandidateChain { state_hashes, ledger_hashes, proofs })
}

/// The candidate chain from a `bestChain` reply (whose `errors` array this
/// query does not consult): every block must carry a decodable proof; the
/// first block that does not decides the error.
pub fn candidate_chain_from_reply<P>(data: Option<Option<Vec<CandidateBlock<P>>>>) -> (r: Result<
    CandidateChain<P>,
    MinaDaemonError,
>)
    ensures
        match data {
            None => r matches Err(MinaDaemonError::MalformedResponse(m)) && m@
                == "Missing candidate query response data"@,
            Some(None) => r matches Err(MinaDaemonError::MalformedResponse(m)) && m@
                == "Missing best chain field"@,
            Some(Some(blocks)) => match r {
                Ok(c) => chain_of_blocks(blocks@, c) && first_proof_failure(blocks@) is None,
                Err(MinaDaemonError::MalformedResponse(m)) => first_proof_failure(blocks@) == Some(
                    m@,
                ),
                Err(_) => false,
            },
        },
{
    match data {
        None => Err(
            MinaDaemonError::MalformedResponse("Missing candidate query response data".to_owned()),
        ),
        Some(None) => Err(MinaDaemonError::MalformedResponse("Missing best chain field".to_owned())),
        Some(Some(blocks)) => match chain_from_blocks(blocks) {
            Ok(c) => Ok(c),
            Err(m) => Err(MinaDaemonError::MalformedResponse(m)),
        },
    }
}

// ---------------------------------------------------------------------------
// Payload decoding
// ---------------------------------------------------------------------------
/// The bytes of a base64 payload, or the failure that stops its decoding.
pub fn payload_bytes(alphabet: Base64Alphabet, b64: &str) -> (r: Result<Vec<u8>, DecodeFailure>)
    ensures
        match base64_decoded(alphabet, b64@) {
            Ok(b) => r matches Ok(v) && v@ == b,
            Err(t) => r matches Err(DecodeFailure::Base64(m)) && m@ == t,
        },
{
    match decode_base64(alphabet, b64) {
        Ok(v) => Ok(v),
        Err(t) => Err(DecodeFailure::Base64(t)),
    }
}

// ---------------------------------------------------------------------------
// State proof assembly
// ---------------------------------------------------------------------------
/// A Mina state proof over a window of consecutive blocks: the proof of the
/// window's tip, the protocol states of the whole window (oldest first) and
/// the protocol state of the window's oldest block, the bridge tip.
#[derive(Debug, Clone)]
pub struct MinaStateProof<P, S> {
    pub candidate_tip_proof: P,
    pub candidate_chain_states: Vec<S>,
    pub bridge_tip_state: S,
}

/// The public inputs of a Mina state proof.
#[derive(Debug, Clone)]
pub struct MinaStatePubInputs {
    pub is_state_proof_from_devnet: bool,
    pub bridge_tip_state_hash: String,
    pub candidate_chain_state_hashes: Vec<String>,
    pub candidate_chain_ledger_hashes: Vec<String>,
}

/// `proof` and `inputs` assemble a window with state hashes `hashes`, ledger
/// hashes `ledgers`, protocol states `states` and tip proof `tip_proof`.
pub open spec fn state_proof_assembled<P, S: Clone>(
    is_devnet: bool,
    hashes: Seq<Seq<char>>,
    ledgers: Seq<Seq<char>>,
    tip_proof: P,
    states: Seq<S>,
    proof: MinaStateProof<P, S>,
    inputs: MinaStatePubInputs,
) -> bool {
    &&& inputs.is_state_proof_from_devnet == is_devnet
    &&& views(inputs.candidate_chain_state_hashes@) == hashes
    &&& views(inputs.candidate_chain_ledger_hashes@) == ledgers
    &&& inputs.bridge_tip_state_hash@ == hashes[0]
    &&& proof.candidate_tip_proof == tip_proof
    &&& proof.candidate_chain_states@ == states
    &&& cloned(states[0], proof.bridge_tip_state)
}

/// Assembles the proof and public inputs of a full window.
pub fn assemble_state_proof<P, S: Clone>(
    is_devnet: bool,
    state_hashes: Vec<String>,
    ledger_hashes: Vec<String>,
    tip_proof: P,
    states: Vec<S>,
) -> (r: (MinaStateProof<P, S>, MinaStatePubInputs))
    requires
        state_hashes@.len() == BRIDGE_TRANSITION_FRONTIER_LEN,
        ledger_hashes@.len() == BRIDGE_TRANSITION_FRONTIER_LEN,
        states@.len() == BRIDGE_TRANSITION_FRONTIER_LEN,
    ensures
        state_proof_assembled(
            is_devnet,
            views(state_hashes@),
            views(ledger_hashes@),
            tip_proof,
            states@,
            r.0,
            r.1,
        ),
{
    let bridge_tip_state = states[0].clone();
    let bridge_tip_state_hash = state_hashes[0].clone();
    let proof = MinaStateProof {
        candidate_tip_proof: tip_proof,
        candidate_chain_states: states,
        bridge_tip_state,
    };
    let inputs = MinaStatePubInputs {
        is_state_proof_from_devnet: is_devnet,
        bridge_tip_state_hash,
        candidate_chain_state_hashes: state_hashes,
        candidate_chain_ledger_hashes: ledger_hashes,
    };
    (proof, inputs)
}

// ---------------------------------------------------------------------------
// Window by per-height block queries
// ---------------------------------------------------------------------------
/// The heights of the window whose oldest block is at `fg_height`.
pub fn window_heights(fg_height: u64) -> (v: Vec<u64>)
    requires
        fg_height + BRIDGE_TRANSITION_FRONTIER_LEN - 1 <= u64::MAX,
    ensures
        v@.len() == BRIDGE_TRANSITION_FRONTIER_LEN,
        forall|i: int| 0 <= i < v@.len() ==> v@[i] == fg_height + i,
{
    let mut v: Vec<u64> = Vec::new();
    for i in 0..BRIDGE_TRANSITION_FRONTIER_LEN
        invariant
            fg_height + BRIDGE_TRANSITION_FRONTIER_LEN - 1 <= u64::MAX,
            v@.len() == i,
            forall|j: int| 0 <= j < i ==> v@[j] == fg_height + j,
    {
        v.push(fg_height + i as u64);
    }
    v
}

/// The prefix of the messages about the block at `height`.
pub open spec fn block_at_height_prefix(height: u64) -> Seq<char> {
    "block(height:"@ + decimal(height as nat) + "): "@
}

fn block_at_height_message(height: u64, detail: &str) -> (s: String)
    ensures
        s@ == block_at_height_prefix(height) + detail@,
{
    let mut s = "block(height:".to_owned();
    push_decimal(&mut s, height as u128);
    s.append("): ");
    s.append(detail);
    s
}

/// The state hash, ledger hash and proof of the block at `height`, from a
/// `block(height:)` reply.
pub fn block_at_height_from_reply<P>(height: u64, reply: GraphQLReply<CandidateBlock<P>>) -> (r:
    Result<(String, String, P), MinaDaemonError>)
    ensures
        reports_errors(reply.errors) ==> (r matches Err(MinaDaemonError::GraphQLError(m)) && m@
            == joined_errors(reply.errors)),
        !reports_errors(reply.errors) ==> match reply.data {
            None => r matches Err(MinaDaemonError::MalformedResponse(m)) && m@
                == block_at_height_prefix(height) + "missing response data"@,
            Some(b) => match b.state_proof {
                None => r matches Err(MinaDaemonError::MalformedResponse(m)) && m@
                    == block_at_height_prefix(height) + "missing protocol state proof base64"@,
                Some(Err(f)) => r matches Err(MinaDaemonError::MalformedResponse(m)) && m@
                    == decode_failure_text(
                    f,
                    block_at_height_prefix(height) + "base64 decode: "@,
                    block_at_height_prefix(height) + "binprot read: "@,
                ),
                Some(Ok(p)) => r == Ok::<(String, String, P), MinaDaemonError>(
                    (b.state_hash, b.ledger_hash, p),
                ),
            },
        },
{
    if let Some(msgs) = reported_errors(&reply.errors) {
        return Err(MinaDaemonError::GraphQLError(msgs));
    }
    let b = match reply.data {
        Some(b) => b,
        None => {
            return Err(
                MinaDaemonError::MalformedResponse(
                    block_at_height_message(height, "missing response data"),
                ),
            );
        },
    };
    match b.state_proof {
        None => Err(
            MinaDaemonError::MalformedResponse(
                block_at_height_message(height, "missing protocol state proof base64"),
            ),
        ),
        Some(Err(f)) => {
            let base64_prefix = block_at_height_message(height, "base64 decode: ");
            let binprot_prefix = block_at_height_message(height, "binprot read: ");
            Err(
                MinaDaemonError::MalformedResponse(
                    describe_decode_failure(f, base64_prefix.as_str(), binprot_prefix.as_str()),
                ),
            )
        },
        Some(Ok(p)) => Ok((b.state_hash, b.ledger_hash, p)),
    }
}

/// A block of the proof window with its protocol state.
#[derive(Debug, Clone)]
pub struct WindowBlock<P, S> {
    pub state_hash: String,
    pub ledger_hash: String,
    pub proof: P,
    pub state: S,
}

/// The values of outcomes that all succeeded.
pub open spec fn ok_values<T, E>(rs: Seq<Result<T, E>>) -> Seq<T> {
    rs.map_values(|x: Result<T, E>| x->Ok_0)
}

/// The message for a window whose oldest block is not the expected F_g.
pub open spec fn fg_mismatch_text(fg_height: u64, expected: Seq<char>, got: Seq<char>) -> Seq<
    char,
> {
    "State hash mismatch at F_g (height "@ + decimal(fg_height as nat) + "): expected "@
        + expected + ", got "@ + got
}

/// `proof` and `inputs` assemble the window `blocks`.
pub open spec fn window_assembled<P, S: Clone>(
    is_devnet: bool,
    blocks: Seq<WindowBlock<P, S>>,
    proof: MinaStateProof<P, S>,
    inputs: MinaStatePubInputs,
) -> bool {
    state_proof_assembled(
        is_devnet,
        blocks.map_values(|b: WindowBlock<P, S>| b.state_hash@),
        blocks.map_values(|b: WindowBlock<P, S>| b.ledger_hash@),
        blocks.last().proof,
        blocks.map_values(|b: WindowBlock<P, S>| b.state),
        proof,
        inputs,
    )
}

/// The state proof of the window whose oldest block is F_g, from the
/// outcomes of its per-height queries (oldest first): the first failed
/// query decides the error; the oldest block must have F_g's state hash.
/// The proof is as assembled: `locally_verified` gives the outcome once the
/// local verifier has judged it.
pub fn state_proof_from_window<P, S: Clone>(
    is_devnet: bool,
    fg_height: u64,
    fg_hash: &str,
    results: Vec<Result<WindowBlock<P, S>, MinaDaemonError>>,
) -> (r: Result<(MinaStateProof<P, S>, MinaStatePubInputs), MinaDaemonError>)
    requires
        results@.len() == BRIDGE_TRANSITION_FRONTIER_LEN,
    ensures
        match first_error(results@) {
            Some(e) => r == Err::<(MinaStateProof<P, S>, MinaStatePubInputs), MinaDaemonError>(e),
            None => {
                let blocks = ok_values(results@);
                if blocks[0].state_hash@ != fg_hash@ {
                    r matches Err(MinaDaemonError::StateHashMismatch(m)) && m@ == fg_mismatch_text(
                        fg_height,
                        fg_hash@,
                        blocks[0].state_hash@,
                    )
                } else {
                    r matches Ok((proof, inputs)) && window_assembled(
                        is_devnet,
                        blocks,
                        proof,
                        inputs,
                    )
                }
            },
        },
        r matches Ok((proof, inputs)) ==> inputs.bridge_tip_state_hash@ == fg_hash@
            && inputs.candidate_chain_state_hashes@.len() == BRIDGE_TRANSITION_FRONTIER_LEN,
{
    let ghost rs = results@;
    let blocks = match collect_results(results) {
        Ok(b) => b,
        Err(e) => {
            return Err(e);
        },
    };
    assert(blocks@ == ok_values(rs)) by {
        assert forall|i: int| 0 <= i < rs.len() implies blocks@[i] == ok_values(rs)[i] by {
            assert(rs[i] == Ok::<WindowBlock<P, S>, MinaDaemonError>(blocks@[i]));
        }
    }
    if !str_eq(blocks[0].state_hash.as_str(), fg_hash) {
        let mut m = "State hash mismatch at F_g (height ".to_owned();
        push_decimal(&mut m, fg_height as u128);
        m.append("): expected ");
        m.append(fg_hash);
        m.append(", got ");
        m.append(blocks[0].state_hash.as_str());
        return Err(MinaDaemonError::StateHashMismatch(m));
    }
    let ghost bs = blocks@;
    let mut rest = blocks;
    let mut state_hashes: Vec<String> = Vec::new();
    let mut ledger_hashes: Vec<String> = Vec::new();
    let mut proofs: Vec<P> = Vec::new();
    let mut states: Vec<S> = Vec::new();
    let n = rest.len();
    let mut i: usize = 0;
    assert(bs.subrange(0, n as int) == bs);
    while i < n
        invariant
            n == bs.len(),
            i <= n,
            rest@ == bs.subrange(i as int, n as int),
            state_hashes@.len() == i,
            ledger_hashes@.len() == i,
            proofs@.len() == i,
            states@.len() == i,
            forall|j: int| 0 <= j < i ==> (#[trigger] state_hashes@[j])@ == bs[j].state_hash@,
            forall|j: int| 0 <= j < i ==> (#[trigger] ledger_hashes@[j])@ == bs[j].ledger_hash@,
            forall|j: int| 0 <= j < i ==> #[trigger] proofs@[j] == bs[j].proof,
            forall|j: int| 0 <= j < i ==> #[trigger] states@[j] == bs[j].state,
        decreases n - i,
    {
        let b = rest.remove(0);
        assert(b == bs[i as int]);
        assert(rest@ == bs.subrange(i + 1, n as int));
        state_hashes.push(b.state_hash);
        ledger_hashes.push(b.ledger_hash);
        proofs.push(b.proof);
        states.push(b.state);
        i = i + 1;
    }
    let tip_proof = match proofs.pop() {
        Some(p) => p,
        None => {
            return Err(MinaDaemonError::MalformedResponse("Empty proofs vec".to_owned()));
        },
    };
    let (proof, inputs) = assemble_state_proof(
        is_devnet,
        state_hashes,
        ledger_hashes,
        tip_proof,
        states,
    );
    assert(views(inputs.candidate_chain_state_hashes@) =~= bs.map_values(
        |b: WindowBlock<P, S>| b.state_hash@,
    ));
    assert(views(inputs.candidate_chain_ledger_hashes@) =~= bs.map_values(
        |b: WindowBlock<P, S>| b.ledger_hash@,
    ));
    assert(proof.candidate_chain_states@ =~= bs.map_values(|b: WindowBlock<P, S>| b.state));
    Ok((proof, inputs))
}

// ---------------------------------------------------------------------------
// Window by one oversized best chain query
// ---------------------------------------------------------------------------
/// The message for an F_g too far behind the tip for the daemon to serve.
pub open spec fn block_too_old_text(fg_height: u64, distance: nat, tip_height: u64) -> Seq<char> {
    "group_finalization_block_height "@ + decimal(fg_height as nat) + " is too old: "@
        + decimal(distance) + " blocks behind tip "@ + decimal(tip_height as nat)
        + ", exceeds daemon limit of "@ + decimal(MINA_DAEMON_MAX_QUERYABLE_BLOCKS as nat)
}

/// The number of best-chain blocks to request so that the window of the
/// block at `fg_height` is included although the tip, now at
/// `live_tip_height`, may advance: the distance to F_g, the window and the
/// buffer; refused when that exceeds what the daemon can serve.
pub fn best_chain_length_for(live_tip_height: u64, fg_height: u64) -> (r: Result<
    usize,
    MinaDaemonError,
>)
    requires
        fg_height <= live_tip_height,
    ensures
        ({
            let distance = live_tip_height - fg_height;
            let needed = distance + BRIDGE_TRANSITION_FRONTIER_LEN + BEST_CHAIN_QUERY_BUFFER;
            if needed > MINA_DAEMON_MAX_QUERYABLE_BLOCKS {
                r matches Err(MinaDaemonError::BlockTooOld(m)) && m@ == block_too_old_text(
                    fg_height,
                    distance as nat,
                    live_tip_height,
                )
            } else {
                r == Ok::<usize, MinaDaemonError>(needed as usize)
            }
        }),
        r matches Ok(n) ==> live_tip_height - fg_height + BRIDGE_TRANSITION_FRONTIER_LEN <= n
            <= MINA_DAEMON_MAX_QUERYABLE_BLOCKS,
{
    let distance = live_tip_height - fg_height;
    let limit = (MINA_DAEMON_MAX_QUERYABLE_BLOCKS - BRIDGE_TRANSITION_FRONTIER_LEN
        - BEST_CHAIN_QUERY_BUFFER) as u64;
    if distance > limit {
        let mut m = "group_finalization_block_height ".to_owned();
        push_decimal(&mut m, fg_height as u128);
        m.append(" is too old: ");
        push_decimal(&mut m, distance as u128);
        m.append(" blocks behind tip ");
        push_decimal(&mut m, live_tip_height as u128);
        m.append(", exceeds daemon limit of ");
        push_decimal(&mut m, MINA_DAEMON_MAX_QUERYABLE_BLOCKS as u128);
        return Err(MinaDaemonError::BlockTooOld(m));
    }
    Ok(distance as usize + BRIDGE_TRANSITION_FRONTIER_LEN + BEST_CHAIN_QUERY_BUFFER)
}

/// The message for an F_g whose state hash the best chain does not hold.
pub open spec fn fg_not_found_text(fg_hash: Seq<char>, best_chain_max_length: nat) -> Seq<char> {
    "group_finalization_state_hash "@ + fg_hash + " not found in bestChain response of "@
        + decimal(best_chain_max_length) + " blocks"@
}

/// The message for an F_g too close to the end of the best chain.
pub open spec fn short_window_text(available: nat) -> Seq<char> {
    "Not enough blocks after F_g: need "@ + decimal(BRIDGE_TRANSITION_FRONTIER_LEN as nat)
        + " but only "@ + decimal(available) + " available"@
}

/// Where the window of F_g starts in a best chain (oldest first): at the
/// first block with F_g's state hash, which must be followed by the rest of
/// the window.
pub fn locate_fg_window(state_hashes: &Vec<String>, fg_hash: &str, best_chain_max_length: usize) -> (r:
    Result<usize, MinaDaemonError>)
    ensures
        match views(state_hashes@).index_of_first(fg_hash@) {
            None => r matches Err(MinaDaemonError::StateHashMismatch(m)) && m@ == fg_not_found_text(
                fg_hash@,
                best_chain_max_length as nat,
            ),
            Some(i) => if i + BRIDGE_TRANSITION_FRONTIER_LEN > state_hashes@.len() {
                r matches Err(MinaDaemonError::MalformedResponse(m)) && m@ == short_window_text(
                    (state_hashes@.len() - i) as nat,
                )
            } else {
                r == Ok::<usize, MinaDaemonError>(i as usize)
            },
        },
        r matches Ok(i) ==> i + BRIDGE_TRANSITION_FRONTIER_LEN <= state_hashes@.len()
            && state_hashes@[i as int]@ == fg_hash@,
{
    let ghost hs = views(state_hashes@);
    proof {
        hs.index_of_first_ensures(fg_hash@);
    }
    let n = state_hashes.len();
    let mut i: usize = 0;
    while i < n
        invariant
            hs == views(state_hashes@),
            n == state_hashes@.len(),
            i <= n,
            forall|j: int| 0 <= j < i ==> hs[j] != fg_hash@,
        decreases n - i,
    {
        if str_eq(state_hashes[i].as_str(), fg_hash) {
            assert(hs[i as int] == fg_hash@);
            assert(hs.index_of_first(fg_hash@) == Some(i as int)) by {
                hs.index_of_first_ensures(fg_hash@);
                assert(hs.contains(fg_hash@));
            }
            if n < BRIDGE_TRANSITION_FRONTIER_LEN || i > n - BRIDGE_TRANSITION_FRONTIER_LEN {
                let mut m = "Not enough blocks after F_g: need ".to_owned();
                push_decimal(&mut m, BRIDGE_TRANSITION_FRONTIER_LEN as u128);
                m.append(" but only ");
                push_decimal(&mut m, (n - i) as u128);
                m.append(" available");
                return Err(MinaDaemonError::MalformedResponse(m));
            }
            return Ok(i);
        }
        i = i + 1;
    }
    assert(!hs.contains(fg_hash@));
    let mut m = "group_finalization_state_hash ".to_owned();
    m.append(fg_hash);
    m.append(" not found in bestChain response of ");
    push_decimal(&mut m, best_chain_max_length as u128);
    m.append(" blocks");
    Err(MinaDaemonError::StateHashMismatch(m))
}

impl<P> CandidateChain<P> {
    /// The three lists describe the same blocks.
    pub open spec fn wf(self) -> bool {
        &&& self.ledger_hashes@.len() == self.state_hashes@.len()
        &&& self.proofs@.len() == self.state_hashes@.len()
    }
}

/// The window of a candidate chain: its state and ledger hashes, oldest
/// first, and the proof of its tip.
#[derive(Debug, Clone)]
pub struct CandidateWindow<P> {
    pub state_hashes: Vec<String>,
    pub ledger_hashes: Vec<String>,
    pub tip_proof: P,
}

/// The window of `chain` that starts at `start`.
pub fn candidate_window<P>(chain: CandidateChain<P>, start: usize) -> (w: CandidateWindow<P>)
    requires
        chain.wf(),
        start + BRIDGE_TRANSITION_FRONTIER_LEN <= chain.state_hashes@.len(),
    ensures
        w.state_hashes@ == chain.state_hashes@.subrange(
            start as int,
            start + BRIDGE_TRANSITION_FRONTIER_LEN,
        ),
        w.ledger_hashes@ == chain.ledger_hashes@.subrange(
            start as int,
            start + BRIDGE_TRANSITION_FRONTIER_LEN,
        ),
        w.tip_proof == chain.proofs@[start + BRIDGE_TRANSITION_FRONTIER_LEN - 1],
{
    let n = chain.state_hashes.len();
    let end = start + BRIDGE_TRANSITION_FRONTIER_LEN;
    let mut state_hashes = chain.state_hashes;
    let mut window_hashes = state_hashes.split_off(start);
    window_hashes.truncate(BRIDGE_TRANSITION_FRONTIER_LEN);
    let mut ledger_hashes = chain.ledger_hashes;
    let mut window_ledgers = ledger_hashes.split_off(start);
    window_ledgers.truncate(BRIDGE_TRANSITION_FRONTIER_LEN);
    let mut proofs = chain.proofs;
    proofs.truncate(end);
    let tip_proof = proofs.pop().unwrap();
    CandidateWindow { state_hashes: window_hashes, ledger_hashes: window_ledgers, tip_proof }
}

/// The window of F_g in a candidate chain fetched with
/// `best_chain_max_length` blocks.
pub fn fg_window_from_chain<P>(
    chain: CandidateChain<P>,
    fg_hash: &str,
    best_chain_max_length: usize,
) -> (r: Result<CandidateWindow<P>, MinaDaemonError>)
    requires
        chain.wf(),
    ensures
        match views(chain.state_hashes@).index_of_first(fg_hash@) {
            None => r matches Err(MinaDaemonError::StateHashMismatch(m)) && m@ == fg_not_found_text(
                fg_hash@,
                best_chain_max_length as nat,
            ),
            Some(i) => if i + BRIDGE_TRANSITION_FRONTIER_LEN > chain.state_hashes@.len() {
                r matches Err(MinaDaemonError::MalformedResponse(m)) && m@ == short_window_text(
                    (chain.state_hashes@.len() - i) as nat,
                )
            } else {
                r matches Ok(w) && w.state_hashes@ == chain.state_hashes@.subrange(
                    i,
                    i + BRIDGE_TRANSITION_FRONTIER_LEN,
                ) && w.ledger_hashes@ == chain.ledger_hashes@.subrange(
                    i,
                    i + BRIDGE_TRANSITION_FRONTIER_LEN,
                ) && w.tip_proof == chain.proofs@[i + BRIDGE_TRANSITION_FRONTIER_LEN - 1]
            },
        },
        r matches Ok(w) ==> w.state_hashes@.len() == BRIDGE_TRANSITION_FRONTIER_LEN
            && w.ledger_hashes@.len() == BRIDGE_TRANSITION_FRONTIER_LEN
            && w.state_hashes@[0]@ == fg_hash@,
{
    let ghost hs = views(chain.state_hashes@);
    proof {
        hs.index_of_first_ensures(fg_hash@);
    }
    let n = chain.state_hashes.len();
    assert(hs.len() == n);
    match locate_fg_window(&chain.state_hashes, fg_hash, best_chain_max_length) {
        Ok(i) => {
            let ghost c = chain;
            let w = candidate_window(chain, i);
            assert(w.state_hashes@[0] == c.state_hashes@[i as int]);
            Ok(w)
        },
        Err(e) => Err(e),
    }
}

/// The state proof of a window of the candidate chain, from the outcomes of
/// the protocol state queries of its blocks (oldest first): the first
/// failed query decides the error. The proof is as assembled:
/// `locally_verified` gives the outcome once the local verifier has judged
/// it.
pub fn state_proof_from_candidate_window<P, S: Clone>(
    is_devnet: bool,
    window: CandidateWindow<P>,
    states: Vec<Result<S, MinaDaemonError>>,
) -> (r: Result<(MinaStateProof<P, S>, MinaStatePubInputs), MinaDaemonError>)
    requires
        window.state_hashes@.len() == BRIDGE_TRANSITION_FRONTIER_LEN,
        window.ledger_hashes@.len() == BRIDGE_TRANSITION_FRONTIER_LEN,
        states@.len() == BRIDGE_TRANSITION_FRONTIER_LEN,
    ensures
        match first_error(states@) {
            Some(e) => r == Err::<(MinaStateProof<P, S>, MinaStatePubInputs), MinaDaemonError>(e),
            None => r matches Ok((proof, inputs)) && state_proof_assembled(
                is_devnet,
                views(window.state_hashes@),
                views(window.ledger_hashes@),
                window.tip_proof,
                ok_values(states@),
                proof,
                inputs,
            ),
        },
{
    let ghost ss = states@;
    let states = match collect_results(states) {
        Ok(v) => v,
        Err(e) => {
            return Err(e);
        },
    };
    assert(states@ == ok_values(ss)) by {
        assert forall|i: int| 0 <= i < ss.len() implies states@[i] == ok_values(ss)[i] by {
            assert(ss[i] == Ok::<S, MinaDaemonError>(states@[i]));
        }
    }
    Ok(
        assemble_state_proof(
            is_devnet,
            window.state_hashes,
            window.ledger_hashes,
            window.tip_proof,
            states,
        ),
    )
}

// ---------------------------------------------------------------------------
// Account membership
// ---------------------------------------------------------------------------
/// What reading the body of an HTTP answer failed on: decoding it (`true`)
/// or the connection (`false`); `detail` is the failure's text.
pub fn body_read_error(is_decode: bool, detail: &str) -> (e: MinaDaemonError)
    ensures
        is_decode ==> (e matches MinaDaemonError::MalformedResponse(m) && m@
            == "failed to read response body: "@ + detail@),
        !is_decode ==> (e matches MinaDaemonError::RpcUnreachable(m) && m@
            == "failed to read response body: "@ + detail@),
{
    let m = labelled("failed to read response body: ", detail);
    if is_decode {
        MinaDaemonError::MalformedResponse(m)
    } else {
        MinaDaemonError::RpcUnreachable(m)
    }
}

/// The error for an answer body that is not the expected JSON; `detail` is
/// the parser's text.
pub fn json_parse_error(detail: &str) -> (e: MinaDaemonError)
    ensures
        e matches MinaDaemonError::MalformedResponse(m) && m@ == "Failed to parse JSON: "@
            + detail@,
{
    MinaDaemonError::MalformedResponse(labelled("Failed to parse JSON: ", detail))
}

/// A node of a Merkle path: the sibling hash and the side it is on.
#[derive(Debug, Clone)]
pub enum MerkleNode<F> {
    Left(F),
    Right(F),
}

/// A Merkle path node as the daemon renders it: exactly one of the two
/// sides carries a field element, here with the outcome of parsing it.
#[derive(Debug)]
pub struct MerklePathEntry<F> {
    pub left: Option<Result<F, ()>>,
    pub right: Option<Result<F, ()>>,
}

/// An account membership of an account query: the account, with the
/// outcome of decoding its base64 binprot payload, and its Merkle path.
#[derive(Debug)]
pub struct AccountMembership<A, F> {
    pub account: Result<A, DecodeFailure>,
    pub merkle_path: Vec<MerklePathEntry<F>>,
}

/// The data of an account query: the memberships and the outcome of
/// converting the block's snarked ledger hash to a field element.
#[derive(Debug)]
pub struct AccountQueryData<A, F> {
    pub memberships: Vec<AccountMembership<A, F>>,
    pub ledger_hash: Result<F, ()>,
}

/// The entry has exactly one side.
pub open spec fn entry_well_formed<F>(e: MerklePathEntry<F>) -> bool {
    (e.left is Some) != (e.right is Some)
}

/// The entry's node, when its side parsed.
pub open spec fn entry_node<F>(e: MerklePathEntry<F>) -> Option<MerkleNode<F>> {
    match (e.left, e.right) {
        (Some(Ok(f)), None) => Some(MerkleNode::Left(f)),
        (None, Some(Ok(f))) => Some(MerkleNode::Right(f)),
        _ => None,
    }
}

/// Reading the path stops at a malformed entry before any entry whose side
/// fails to parse: the daemon never sends such a path.
pub open spec fn path_hits_malformed<F>(path: Seq<MerklePathEntry<F>>) -> bool
    decreases path.len(),
{
    if path.len() == 0 {
        false
    } else if !entry_well_formed(path[0]) {
        true
    } else if entry_node(path[0]) is None {
        false
    } else {
        path_hits_malformed(path.drop_first())
    }
}

/// The nodes of a path whose entries are all well formed and parse.
pub open spec fn path_nodes<F>(path: Seq<MerklePathEntry<F>>, nodes: Seq<MerkleNode<F>>) -> bool {
    &&& nodes.len() == path.len()
    &&& forall|i: int| 0 <= i < path.len() ==> entry_node(#[trigger] path[i]) == Some(nodes[i])
}

/// Some entry of the path has no node: it is malformed or its side fails to
/// parse.
pub open spec fn path_fails<F>(path: Seq<MerklePathEntry<F>>) -> bool {
    exists|i: int| 0 <= i < path.len() && #[trigger] entry_node(path[i]) is None
}

pub(crate) fn merkle_path_nodes<F>(path: Vec<MerklePathEntry<F>>) -> (r: Result<Vec<MerkleNode<F>>, ()>)
    requires
        !path_hits_malformed(path@),
    ensures
        match r {
            Ok(nodes) => path_nodes(path@, nodes@),
            Err(_) => path_fails(path@),
        },
{
    let ghost orig = path@;
    let mut rest = path;
    let mut nodes: Vec<MerkleNode<F>> = Vec::new();
    let n = rest.len();
    let mut i: usize = 0;
    assert(orig.subrange(0, n as int) == orig);
    while i < n
        invariant
            orig == path@,
            n == orig.len(),
            i <= n,
            rest@ == orig.subrange(i as int, n as int),
            !path_hits_malformed(orig.subrange(i as int, n as int)),
            path_nodes(orig.take(i as int), nodes@),
        decreases n - i,
    {
        let e = rest.remove(0);
        assert(e == orig[i as int]);
        assert(orig.subrange(i as int, n as int).drop_first() == orig.subrange(i + 1, n as int));
        let node = match (e.left, e.right) {
            (Some(Ok(f)), None) => MerkleNode::Left(f),
            (None, Some(Ok(f))) => MerkleNode::Right(f),
            _ => {
                assert(entry_node(orig[i as int]) is None);
                return Err(());
            },
        };
        nodes.push(node);
        assert(orig.take(i + 1) == orig.take(i as int).push(orig[i as int]));
        i = i + 1;
    }
    assert(orig.take(n as int) == orig);
    Ok(nodes)
}

/// An account query panics on this answer: it would read a malformed path
/// entry of the first membership.
pub open spec fn account_reply_hits_malformed<A, F>(reply: GraphQLReply<AccountQueryData<A, F>>) -> bool {
    &&& !reports_errors(reply.errors)
    &&& reply.data matches Some(d)
    &&& d.memberships@.len() > 0
    &&& d.memberships@[0].account is Ok
    &&& d.ledger_hash is Ok
    &&& path_hits_malformed(d.memberships@[0].merkle_path@)
}

/// The account, snarked ledger hash and Merkle path of an account query's
/// answer, checked in the order the answer is read: reported errors, data,
/// membership, account payload, ledger hash, path.
pub fn account_from_reply<A, F>(reply: GraphQLReply<AccountQueryData<A, F>>) -> (r: Result<
    (A, F, Vec<MerkleNode<F>>),
    MinaDaemonError,
>)
    requires
        !account_reply_hits_malformed(reply),
    ensures
        reports_errors(reply.errors) ==> (r matches Err(MinaDaemonError::GraphQLError(m)) && m@
            == joined_errors(reply.errors)),
        !reports_errors(reply.errors) ==> match reply.data {
            None => r matches Err(MinaDaemonError::MalformedResponse(m)) && m@
                == "missing response data"@,
            Some(d) => if d.memberships@.len() == 0 {
                r matches Err(MinaDaemonError::AccountNotFound(m)) && m@
                    == "Failed to retrieve membership query field"@
            } else {
                let mb = d.memberships@[0];
                match mb.account {
                    Err(f) => r matches Err(MinaDaemonError::MalformedResponse(m)) && m@
                        == decode_failure_text(
                        f,
                        "Failed to decode account from base64: "@,
                        "Failed to deserialize account binprot: "@,
                    ),
                    Ok(a) => match d.ledger_hash {
                        Err(_) => r matches Err(MinaDaemonError::MalformedResponse(m)) && m@
                            == "Failed to convert snarked_ledger_hash to field element"@,
                        Ok(l) => if path_fails(mb.merkle_path@) {
                            r matches Err(MinaDaemonError::MalformedResponse(m)) && m@
                                == "Error deserializing merkle path nodes"@
                        } else {
                            r matches Ok((a2, l2, nodes)) && a2 == a && l2 == l && path_nodes(
                                mb.merkle_path@,
                                nodes@,
                            )
                        },
                    },
                }
            },
        },
{
    let d = match reply_data(reply, "missing response data") {
        Ok(d) => d,
        Err(e) => {
            return Err(e);
        },
    };
    let mut memberships = d.memberships;
    if memberships.len() == 0 {
        return Err(
            MinaDaemonError::AccountNotFound("Failed to retrieve membership query field".to_owned()),
        );
    }
    let mb = memberships.remove(0);
    let account = match mb.account {
        Ok(a) => a,
        Err(f) => {
            return Err(
                MinaDaemonError::MalformedResponse(
                    describe_decode_failure(
                        f,
                        "Failed to decode account from base64: ",
                        "Failed to deserialize account binprot: ",
                    ),
                ),
            );
        },
    };
    let ledger_hash = match d.ledger_hash {
        Ok(l) => l,
        Err(_) => {
            return Err(
                MinaDaemonError::MalformedResponse(
                    "Failed to convert snarked_ledger_hash to field element".to_owned(),
                ),
            );
        },
    };
    let ghost path = mb.merkle_path@;
    match merkle_path_nodes(mb.merkle_path) {
        Ok(nodes) => {
            assert(!path_fails(path));
            Ok((account, ledger_hash, nodes))
        },
        Err(_) => Err(
            MinaDaemonError::MalformedResponse("Error deserializing merkle path nodes".to_owned()),
        ),
    }
}

/// A proof of an account's membership in a ledger: the Merkle path from the
/// ledger root to the account leaf, and the account.
#[derive(Debug, Clone)]
pub struct MinaAccountProof<A, F> {
    pub merkle_path: Vec<MerkleNode<F>>,
    pub account: A,
}

/// The public inputs of an account proof: the ledger hash and the account's
/// ABI encoding.
#[derive(Debug, Clone)]
pub struct MinaAccountPubInputs<F> {
    pub ledger_hash: F,
    pub encoded_account: Vec<u8>,
}

/// The account proof and public inputs of a queried account, given the
/// outcome of ABI-encoding the account (the error text of a failed
/// conversion).
pub fn account_proof_from_parts<A, F>(
    account: A,
    ledger_hash: F,
    merkle_path: Vec<MerkleNode<F>>,
    encoded_account: Result<Vec<u8>, String>,
) -> (r: Result<(MinaAccountProof<A, F>, MinaAccountPubInputs<F>), MinaDaemonError>)
    ensures
        match encoded_account {
            Err(t) => r matches Err(MinaDaemonError::SerializationError(m)) && m@ == t@,
            Ok(enc) => r matches Ok((p, i)) && p.merkle_path@ == merkle_path@ && p.account
                == account && i.ledger_hash == ledger_hash && i.encoded_account@ == enc@,
        },
{
    match encoded_account {
        Err(t) => Err(MinaDaemonError::SerializationError(t)),
        Ok(enc) => Ok(
            (
                MinaAccountProof { merkle_path, account },
                MinaAccountPubInputs { ledger_hash, encoded_account: enc },
            ),
        ),
    }
}

// ---------------------------------------------------------------------------
// Laws
// ---------------------------------------------------------------------------
/// The best-chain path proves the window of F_g: once the window located
/// for F_g's state hash is assembled into a proof, its bridge tip and its
/// first state hash are F_g's, and it holds a full window.
pub proof fn lemma_located_window_starts_at_fg<P, S: Clone>(
    chain: CandidateChain<P>,
    fg_hash: Seq<char>,
    window: CandidateWindow<P>,
    is_devnet: bool,
    states: Seq<S>,
    proof: MinaStateProof<P, S>,
    inputs: MinaStatePubInputs,
)
    requires
        chain.wf(),
        views(chain.state_hashes@).index_of_first(fg_hash) matches Some(i) && i
            + BRIDGE_TRANSITION_FRONTIER_LEN <= chain.state_hashes@.len()
            && window.state_hashes@ == chain.state_hashes@.subrange(
            i,
            i + BRIDGE_TRANSITION_FRONTIER_LEN,
        ),
        state_proof_assembled(
            is_devnet,
            views(window.state_hashes@),
            views(window.ledger_hashes@),
            window.tip_proof,
            states,
            proof,
            inputs,
        ),
    ensures
        inputs.bridge_tip_state_hash@ == fg_hash,
        inputs.candidate_chain_state_hashes@.len() == BRIDGE_TRANSITION_FRONTIER_LEN,
        inputs.candidate_chain_state_hashes@[0]@ == fg_hash,
{
    let hs = views(chain.state_hashes@);
    hs.index_of_first_ensures(fg_hash);
    let i = hs.index_of_first(fg_hash)->0;
    assert(hs[i] == chain.state_hashes@[i]@);
    assert(window.state_hashes@.len() == BRIDGE_TRANSITION_FRONTIER_LEN);
    let ws = views(window.state_hashes@);
    let is = views(inputs.candidate_chain_state_hashes@);
    assert(ws.len() == window.state_hashes@.len());
    assert(is.len() == inputs.candidate_chain_state_hashes@.len());
    assert(ws[0] == window.state_hashes@[0]@);
    assert(is[0] == inputs.candidate_chain_state_hashes@[0]@);
}

/// The outcome of a state proof once the local verifier has judged the
/// assembled proof and its public inputs: both, when it accepted them;
/// otherwise the local verification error.
pub fn locally_verified<P, S>(
    assembled: (MinaStateProof<P, S>, MinaStatePubInputs),
    verified: bool,
) -> (r: Result<(MinaStateProof<P, S>, MinaStatePubInputs), MinaDaemonError>)
    ensures
        verified ==> r == Ok::<(MinaStateProof<P, S>, MinaStatePubInputs), MinaDaemonError>(
            assembled,
        ),
        !verified ==> (r matches Err(MinaDaemonError::LocalVerificationFailed(m)) && m@
            == "Mina state proof verification failed"@),
{
    if verified {
        Ok(assembled)
    } else {
        Err(
            MinaDaemonError::LocalVerificationFailed(
                "Mina state proof verification failed".to_owned(),
            ),
        )
    }
}

} // verus!
