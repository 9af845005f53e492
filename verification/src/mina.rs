//! The Mina node queries of the settlement examples: a state proof of the
//! transition frontier's live tip window against the bridge tip stored in
//! the settlement contract, the frontier's root, and account membership.
//! Errors are plain messages.
//!
//! As in `mina_daemon`, transport, base64 and binprot decoding happen
//! outside and their outcomes arrive as plain values.
use vstd::prelude::*;
use vstd::string::StringExecFns;

use crate::constants::BRIDGE_TRANSITION_FRONTIER_LEN;
use crate::mina_daemon::{
    decode_failure_text, describe_decode_failure, merkle_path_nodes, ok_values, path_fails,
    path_hits_malformed, path_nodes, AccountQueryData, CandidateBlock,
    DecodeFailure, MerkleNode, MinaStateProof, MinaStatePubInputs,
};
use crate::results::{collect_results, first_error};
use crate::text::{decimal, push_decimal, views};

verus! {

/// A protocol state from a state query's data, given the outcome of decoding
/// its base64 binprot payload.
pub fn state_from_data<S>(data: Option<Result<S, DecodeFailure>>) -> (r: Result<S, String>)
    ensures
        match data {
            None => r matches Err(m) && m@ == "Missing state query response data"@,
            Some(Err(f)) => r matches Err(m) && m@ == decode_failure_text(
                f,
                "Couldn't decode state from base64: "@,
                "Couldn't read state binprot: "@,
            ),
            Some(Ok(s)) => r == Ok::<S, String>(s),
        },
{
    match data {
        None => Err("Missing state query response data".to_owned()),
        Some(Err(f)) => Err(
            describe_decode_failure(
                f,
                "Couldn't decode state from base64: ",
                "Couldn't read state binprot: ",
            ),
        ),
        Some(Ok(s)) => Ok(s),
    }
}

/// The blocks of the live tip window from a `bestChain` reply's data: the
/// daemon must return exactly a window's worth of blocks.
pub fn tip_chain_from_reply<P>(data: Option<Option<Vec<CandidateBlock<P>>>>) -> (r: Result<
    Vec<CandidateBlock<P>>,
    String,
>)
    ensures
        match data {
            None => r matches Err(m) && m@ == "Missing candidate query response data"@,
            Some(None) => r matches Err(m) && m@ == "Missing best chain field"@,
            Some(Some(blocks)) => if blocks@.len() != BRIDGE_TRANSITION_FRONTIER_LEN {
                r matches Err(m) && m@ == "Not enough blocks ("@ + decimal(blocks@.len())
                    + ") were returned from query"@
            } else {
                r == Ok::<Vec<CandidateBlock<P>>, String>(blocks)
            },
        },
{
    let blocks = match data {
        None => {
            return Err("Missing candidate query response data".to_owned());
        },
        Some(None) => {
            return Err("Missing best chain field".to_owned());
        },
        Some(Some(b)) => b,
    };
    if blocks.len() != BRIDGE_TRANSITION_FRONTIER_LEN {
        let mut m = "Not enough blocks (".to_owned();
        push_decimal(&mut m, blocks.len() as u128);
        m.append(") were returned from query");
        return Err(m);
    }
    Ok(blocks)
}

/// The live tip window: the protocol states, state hashes and ledger hashes
/// of its blocks (oldest first) and the proof of its tip.
#[derive(Debug, Clone)]
pub struct TipWindow<P, S> {
    pub states: Vec<S>,
    pub state_hashes: Vec<String>,
    pub ledger_hashes: Vec<String>,
    pub tip_proof: P,
}

/// The error for a tip block without a decoded proof.
pub open spec fn tip_proof_error<P>(b: CandidateBlock<P>) -> Seq<char> {
    match b.state_proof {
        Some(Err(f)) => decode_failure_text(
            f,
            "Couldn't decode state proof from base64: "@,
            "Couldn't read state proof binprot: "@,
        ),
        _ => "No tip state proof"@,
    }
}

/// The window `w` holds the states, the state hashes of `blocks`, the
/// ledger hashes `ledgers` and the proof of the last block.
pub open spec fn tip_window_of<P, S>(
    blocks: Seq<CandidateBlock<P>>,
    states: Seq<S>,
    ledgers: Seq<Seq<char>>,
    w: TipWindow<P, S>,
) -> bool {
    &&& w.states@ == states
    &&& views(w.state_hashes@) == blocks.map_values(|b: CandidateBlock<P>| b.state_hash@)
    &&& views(w.ledger_hashes@) == ledgers
    &&& blocks.last().state_proof == Some(Ok::<P, DecodeFailure>(w.tip_proof))
}

fn tip_window_with_ledgers<P, S>(
    blocks: Vec<CandidateBlock<P>>,
    states: Vec<S>,
    ledger_hashes: Vec<String>,
) -> (r: Result<TipWindow<P, S>, String>)
    requires
        blocks@.len() == BRIDGE_TRANSITION_FRONTIER_LEN,
    ensures
        match blocks@.last().state_proof {
            Some(Ok(_)) => r matches Ok(w) && tip_window_of(
                blocks@,
                states@,
                views(ledger_hashes@),
                w,
            ),
            _ => r matches Err(m) && m@ == tip_proof_error(blocks@.last()),
        },
{
    let ghost bs = blocks@;
    let mut rest = blocks;
    let mut state_hashes: Vec<String> = Vec::new();
    let n = rest.len();
    let mut i: usize = 0;
    assert(bs.subrange(0, n as int) == bs);
    while i + 1 < n
        invariant
            n == bs.len(),
            n == BRIDGE_TRANSITION_FRONTIER_LEN,
            i < n,
            rest@ == bs.subrange(i as int, n as int),
            state_hashes@.len() == i,
            forall|j: int| 0 <= j < i ==> (#[trigger] state_hashes@[j])@ == bs[j].state_hash@,
        decreases n - i,
    {
        let b = rest.remove(0);
        assert(b == bs[i as int]);
        assert(rest@ == bs.subrange(i + 1, n as int));
        state_hashes.push(b.state_hash);
        i = i + 1;
    }
    let tip = rest.remove(0);
    assert(tip == bs.last());
    let tip_proof = match tip.state_proof {
        Some(Ok(p)) => p,
        None => {
            return Err("No tip state proof".to_owned());
        },
        Some(Err(f)) => {
            return Err(
                describe_decode_failure(
                    f,
                    "Couldn't decode state proof from base64: ",
                    "Couldn't read state proof binprot: ",
                ),
            );
        },
    };
    state_hashes.push(tip.state_hash);
    let w = TipWindow { states, state_hashes, ledger_hashes, tip_proof };
    assert(views(w.state_hashes@) =~= bs.map_values(|b: CandidateBlock<P>| b.state_hash@));
    Ok(w)
}

/// The live tip window with the blocks' snarked ledger hashes, given the
/// outcomes of the protocol state queries of its blocks (oldest first): the
/// first failed query decides the error, then the tip must carry a decodable
/// proof.
pub fn snarked_tip_window<P, S>(
    blocks: Vec<CandidateBlock<P>>,
    states: Vec<Result<S, String>>,
) -> (r: Result<TipWindow<P, S>, String>)
    requires
        blocks@.len() == BRIDGE_TRANSITION_FRONTIER_LEN,
    ensures
        match first_error(states@) {
            Some(e) => r == Err::<TipWindow<P, S>, String>(e),
            None => match blocks@.last().state_proof {
                Some(Ok(_)) => r matches Ok(w) && tip_window_of(
                    blocks@,
                    ok_values(states@),
                    blocks@.map_values(|b: CandidateBlock<P>| b.ledger_hash@),
                    w,
                ),
                _ => r matches Err(m) && m@ == tip_proof_error(blocks@.last()),
            },
        },
{
    let ghost ss = states@;
    let mut ledger_hashes: Vec<String> = Vec::new();
    for i in 0..blocks.len()
        invariant
            ledger_hashes@.len() == i,
            forall|j: int|
                0 <= j < i ==> (#[trigger] ledger_hashes@[j])@ == blocks@[j].ledger_hash@,
    {
        ledger_hashes.push(blocks[i].ledger_hash.clone());
    }
    assert(views(ledger_hashes@) =~= blocks@.map_values(|b: CandidateBlock<P>| b.ledger_hash@));
    let states = match collect_results(states) {
        Ok(v) => v,
        Err(e) => {
            return Err(e);
        },
    };
    assert(states@ =~= ok_values(ss)) by {
        assert forall|i: int| 0 <= i < ss.len() implies states@[i] == ok_values(ss)[i] by {
            assert(ss[i] == Ok::<S, String>(states@[i]));
        }
    }
    tip_window_with_ledgers(blocks, states, ledger_hashes)
}

/// The live tip window with the ledger hashes of the blocks' protocol
/// states (their first-pass ledgers), given the outcomes of the protocol
/// state queries of its blocks (oldest first), each with its first-pass
/// ledger hash: the first failed query decides the error, then the tip must
/// carry a decodable proof.
pub fn first_pass_tip_window<P, S>(
    blocks: Vec<CandidateBlock<P>>,
    states: Vec<Result<(S, String), String>>,
) -> (r: Result<TipWindow<P, S>, String>)
    requires
        blocks@.len() == BRIDGE_TRANSITION_FRONTIER_LEN,
    ensures
        match first_error(states@) {
            Some(e) => r == Err::<TipWindow<P, S>, String>(e),
            None => match blocks@.last().state_proof {
                Some(Ok(_)) => r matches Ok(w) && tip_window_of(
                    blocks@,
                    ok_values(states@).map_values(|x: (S, String)| x.0),
                    ok_values(states@).map_values(|x: (S, String)| x.1@),
                    w,
                ),
                _ => r matches Err(m) && m@ == tip_proof_error(blocks@.last()),
            },
        },
{
    let ghost ss = states@;
    let pairs = match collect_results(states) {
        Ok(v) => v,
        Err(e) => {
            return Err(e);
        },
    };
    assert(pairs@ =~= ok_values(ss)) by {
        assert forall|i: int| 0 <= i < ss.len() implies pairs@[i] == ok_values(ss)[i] by {
            assert(ss[i] == Ok::<(S, String), String>(pairs@[i]));
        }
    }
    let ghost ps = pairs@;
    let mut rest = pairs;
    let mut states: Vec<S> = Vec::new();
    let mut ledger_hashes: Vec<String> = Vec::new();
    let n = rest.len();
    let mut i: usize = 0;
    assert(ps.subrange(0, n as int) == ps);
    while i < n
        invariant
            n == ps.len(),
            i <= n,
            rest@ == ps.subrange(i as int, n as int),
            states@.len() == i,
            ledger_hashes@.len() == i,
            forall|j: int| 0 <= j < i ==> #[trigger] states@[j] == ps[j].0,
            forall|j: int| 0 <= j < i ==> (#[trigger] ledger_hashes@[j])@ == ps[j].1@,
        decreases n - i,
    {
        let (s, l) = rest.remove(0);
        assert(rest@ == ps.subrange(i + 1, n as int));
        states.push(s);
        ledger_hashes.push(l);
        i = i + 1;
    }
    assert(states@ =~= ps.map_values(|x: (S, String)| x.0));
    assert(views(ledger_hashes@) =~= ps.map_values(|x: (S, String)| x.1@));
    tip_window_with_ledgers(blocks, states, ledger_hashes)
}

/// The state proof of the live tip window against the bridge tip whose
/// state hash the settlement contract stores, with that block's protocol
/// state.
pub fn tip_state_proof<P, S: Clone>(
    is_devnet: bool,
    bridge_tip_state_hash: String,
    bridge_tip_state: S,
    window: TipWindow<P, S>,
) -> (r: (MinaStateProof<P, S>, MinaStatePubInputs))
    ensures
        r.1.is_state_proof_from_devnet == is_devnet,
        r.1.bridge_tip_state_hash@ == bridge_tip_state_hash@,
        r.1.candidate_chain_state_hashes@ == window.state_hashes@,
        r.1.candidate_chain_ledger_hashes@ == window.ledger_hashes@,
        r.0.candidate_tip_proof == window.tip_proof,
        r.0.candidate_chain_states@ == window.states@,
        r.0.bridge_tip_state == bridge_tip_state,
{
    (
        MinaStateProof {
            candidate_tip_proof: window.tip_proof,
            candidate_chain_states: window.states,
            bridge_tip_state,
        },
        MinaStatePubInputs {
            is_state_proof_from_devnet: is_devnet,
            bridge_tip_state_hash,
            candidate_chain_state_hashes: window.state_hashes,
            candidate_chain_ledger_hashes: window.ledger_hashes,
        },
    )
}

/// The `maxLength` variable of the root query for `length` blocks (a
/// wrapping conversion).
pub fn root_query_length(length: usize) -> (r: i64)
    ensures
        r == length as i64,
{
    length as i64
}

/// The root state hash of the transition frontier from a `bestChain`
/// reply's data (the state hashes of its blocks, oldest first).
pub fn root_from_reply(data: Option<Option<Vec<String>>>) -> (r: Result<String, String>)
    ensures
        match data {
            None => r matches Err(m) && m@ == "Missing root hash query response data"@,
            Some(None) => r matches Err(m) && m@ == "Missing best chain field"@,
            Some(Some(hashes)) => if hashes@.len() == 0 {
                r matches Err(m) && m@ == "No root state"@
            } else {
                r matches Ok(h) && h@ == hashes@[0]@
            },
        },
{
    match data {
        None => Err("Missing root hash query response data".to_owned()),
        Some(None) => Err("Missing best chain field".to_owned()),
        Some(Some(hashes)) => {
            if hashes.len() == 0 {
                Err("No root state".to_owned())
            } else {
                Ok(hashes[0].clone())
            }
        },
    }
}

/// An account query panics on this data: it would unwrap a ledger hash
/// that is not a field element, or read a malformed path entry.
pub open spec fn account_data_panics<A, F>(data: Option<AccountQueryData<A, F>>) -> bool {
    &&& data matches Some(d)
    &&& d.memberships@.len() > 0
    &&& d.memberships@[0].account is Ok
    &&& (d.ledger_hash is Err || path_hits_malformed(d.memberships@[0].merkle_path@))
}

/// The account, ledger hash and Merkle path from an account query's data,
/// checked in the order the data is read.
pub fn account_from_data<A, F>(data: Option<AccountQueryData<A, F>>) -> (r: Result<
    (A, F, Vec<MerkleNode<F>>),
    String,
>)
    requires
        !account_data_panics(data),
    ensures
        match data {
            None => r matches Err(m) && m@ == "Missing merkle query response data"@,
            Some(d) => if d.memberships@.len() == 0 {
                r matches Err(m) && m@ == "Failed to retrieve membership query field"@
            } else {
                let mb = d.memberships@[0];
                match mb.account {
                    Err(f) => r matches Err(m) && m@ == decode_failure_text(
                        f,
                        "Failed to decode account from base64: "@,
                        "Failed to deserialize account binprot: "@,
                    ),
                    Ok(a) => if path_fails(mb.merkle_path@) {
                        r matches Err(m) && m@ == "Error deserializing merkle path nodes"@
                    } else {
                        r matches Ok((a2, l, nodes)) && a2 == a && d.ledger_hash == Ok::<F, ()>(l)
                            && path_nodes(mb.merkle_path@, nodes@)
                    },
                }
            },
        },
{
    let d = match data {
        Some(d) => d,
        None => {
            return Err("Missing merkle query response data".to_owned());
        },
    };
    let mut memberships = d.memberships;
    if memberships.len() == 0 {
        return Err("Failed to retrieve membership query field".to_owned());
    }
    let mb = memberships.remove(0);
    let account = match mb.account {
        Ok(a) => a,
        Err(f) => {
            return Err(
                describe_decode_failure(
                    f,
                    "Failed to decode account from base64: ",
                    "Failed to deserialize account binprot: ",
                ),
            );
        },
    };
    let ledger_hash = match d.ledger_hash {
        Ok(l) => l,
        Err(_) => {
            return Err("Failed to convert snarked_ledger_hash to field element".to_owned());
        },
    };
    let ghost path = mb.merkle_path@;
    match merkle_path_nodes(mb.merkle_path) {
        Ok(nodes) => {
            assert(!path_fails(path));
            Ok((account, ledger_hash, nodes))
        },
        Err(_) => Err("Error deserializing merkle path nodes".to_owned()),
    }
}

} // verus!
