use mina_bridge_core::mina_daemon::{
    account_from_reply, best_chain_length_for, block_at_height_from_reply,
    candidate_chain_from_reply, canonical_state_hash_from_reply, fg_window_from_chain,
    frontier_from_reply, frontier_query_length, locally_verified, locate_fg_window, payload_bytes,
    protocol_state_from_reply, reply_data, reported_errors, state_proof_from_candidate_window,
    state_proof_from_window, tip_height, window_heights, AccountMembership, AccountQueryData,
    CandidateBlock, CandidateChain, DecodeFailure, FrontierBlock, GraphQLReply, MerkleNode,
    MerklePathEntry, WindowBlock,
};
use mina_bridge_core::payload::Base64Alphabet;
use mina_bridge_core::rpcs::errors::MinaDaemonError;

fn ok_reply<T>(data: T) -> GraphQLReply<T> {
    GraphQLReply { errors: None, data: Some(data) }
}

fn s(x: &str) -> String {
    x.to_string()
}

#[test]
fn reported_errors_are_joined() {
    assert_eq!(reported_errors(&Some(vec![s("a"), s("b"), s("c")])), Some(s("a; b; c")));
    assert_eq!(reported_errors(&Some(vec![])), None);
    assert_eq!(reported_errors(&None), None);
}

#[test]
fn reply_data_prefers_errors_then_data() {
    let r: Result<u8, _> =
        reply_data(GraphQLReply { errors: Some(vec![s("boom")]), data: Some(3u8) }, "missing");
    assert_eq!(r, Err(MinaDaemonError::GraphQLError(s("boom"))));
    let r: Result<u8, _> = reply_data(GraphQLReply { errors: Some(vec![]), data: None }, "missing");
    assert_eq!(r, Err(MinaDaemonError::MalformedResponse(s("missing"))));
    assert_eq!(reply_data(ok_reply(7u8), "missing"), Ok(7u8));
}

#[test]
fn protocol_state_decoding_failures_are_described() {
    let r = protocol_state_from_reply::<u8>(ok_reply(Err(DecodeFailure::Base64(s("bad pad")))));
    assert_eq!(
        r,
        Err(MinaDaemonError::MalformedResponse(s("Couldn't decode state from base64: bad pad")))
    );
    let r = protocol_state_from_reply::<u8>(ok_reply(Err(DecodeFailure::Binprot(s("eof")))));
    assert_eq!(r, Err(MinaDaemonError::MalformedResponse(s("Couldn't read state binprot: eof"))));
    let r = protocol_state_from_reply::<u8>(GraphQLReply { errors: None, data: None });
    assert_eq!(r, Err(MinaDaemonError::MalformedResponse(s("missing response data"))));
    assert_eq!(protocol_state_from_reply(ok_reply(Ok(5u8))), Ok(5u8));
}

#[test]
fn frontier_query_length_fits_graphql_int() {
    assert_eq!(frontier_query_length(16), Ok(16));
    assert_eq!(
        frontier_query_length(usize::MAX),
        Err(MinaDaemonError::BadRequest(s("Frontier length conversion failure")))
    );
}

fn frontier_block(hash: &str, height: &str) -> FrontierBlock {
    FrontierBlock { state_hash: s(hash), block_height: s(height) }
}

#[test]
fn frontier_has_exactly_the_requested_length() {
    let blocks = vec![frontier_block("h1", "100"), frontier_block("h2", "101")];
    let entries = frontier_from_reply(2, ok_reply(Some(blocks.clone()))).unwrap();
    assert_eq!(entries.len(), 2);
    assert_eq!(entries[0].state_hash, "h1");
    assert_eq!(entries[0].block_height, 100);
    assert_eq!(entries[1].block_height, 101);
    assert_eq!(tip_height(&entries), Ok(100));

    let r = frontier_from_reply(3, ok_reply(Some(blocks)));
    assert_eq!(
        r.unwrap_err(),
        MinaDaemonError::MalformedResponse(s("Expected 3 blocks from frontier query, got 2"))
    );
}

#[test]
fn frontier_rejects_bad_heights_and_missing_fields() {
    let blocks = vec![frontier_block("h1", "100"), frontier_block("h2", "1x")];
    assert_eq!(
        frontier_from_reply(2, ok_reply(Some(blocks))).unwrap_err(),
        MinaDaemonError::MalformedResponse(s("Block height conversion failure"))
    );
    assert_eq!(
        frontier_from_reply(2, ok_reply(None)).unwrap_err(),
        MinaDaemonError::MalformedResponse(s("Missing best chain field"))
    );
    assert_eq!(
        tip_height(&vec![]),
        Err(MinaDaemonError::MalformedResponse(s("Empty frontier response")))
    );
}

#[test]
fn canonical_hash_distinguishes_frontier_misses() {
    let r = canonical_state_hash_from_reply(
        42,
        GraphQLReply {
            errors: Some(vec![s("Could not find block in transition frontier with height 42")]),
            data: None,
        },
    );
    assert_eq!(
        r,
        Err(MinaDaemonError::BlockNotInFrontier(s(
            "height 42: Could not find block in transition frontier with height 42"
        )))
    );
    let r = canonical_state_hash_from_reply(
        42,
        GraphQLReply { errors: Some(vec![s("internal"), s("oops")]), data: None },
    );
    assert_eq!(r, Err(MinaDaemonError::GraphQLError(s("internal; oops"))));
    let r = canonical_state_hash_from_reply(7, GraphQLReply { errors: None, data: None });
    assert_eq!(
        r,
        Err(MinaDaemonError::MalformedResponse(s(
            "block(height:7): no errors but response data is null"
        )))
    );
    assert_eq!(canonical_state_hash_from_reply(7, ok_reply(s("3NK"))), Ok(s("3NK")));
}

fn candidate(hash: &str, ledger: &str, proof: Option<Result<u32, DecodeFailure>>) -> CandidateBlock<u32> {
    CandidateBlock { state_hash: s(hash), ledger_hash: s(ledger), state_proof: proof }
}

#[test]
fn candidate_chain_keeps_order_and_first_failure_wins() {
    let blocks = vec![candidate("a", "la", Some(Ok(1))), candidate("b", "lb", Some(Ok(2)))];
    let c = candidate_chain_from_reply(Some(Some(blocks))).unwrap();
    assert_eq!(c.state_hashes, vec![s("a"), s("b")]);
    assert_eq!(c.ledger_hashes, vec![s("la"), s("lb")]);
    assert_eq!(c.proofs, vec![1, 2]);

    let blocks = vec![
        candidate("a", "la", Some(Ok(1))),
        candidate("b", "lb", None),
        candidate("c", "lc", Some(Err(DecodeFailure::Base64(s("x"))))),
    ];
    assert_eq!(
        candidate_chain_from_reply(Some(Some(blocks))).unwrap_err(),
        MinaDaemonError::MalformedResponse(s("Missing protocol state proof base64"))
    );
    let blocks = vec![candidate("c", "lc", Some(Err(DecodeFailure::Binprot(s("short")))))];
    assert_eq!(
        candidate_chain_from_reply(Some(Some(blocks))).unwrap_err(),
        MinaDaemonError::MalformedResponse(s("Couldn't read state proof binprot: short"))
    );
    assert_eq!(
        candidate_chain_from_reply::<u32>(None).unwrap_err(),
        MinaDaemonError::MalformedResponse(s("Missing candidate query response data"))
    );
}

#[test]
fn best_chain_length_covers_window_and_buffer() {
    assert_eq!(best_chain_length_for(1000, 990), Ok(30));
    assert_eq!(best_chain_length_for(1000, 1000), Ok(20));
    assert_eq!(best_chain_length_for(1000, 730), Ok(290));
    assert_eq!(
        best_chain_length_for(1000, 729),
        Err(MinaDaemonError::BlockTooOld(s(
            "group_finalization_block_height 729 is too old: 271 blocks behind tip 1000, exceeds daemon limit of 290"
        )))
    );
}

fn hashes(n: usize) -> Vec<String> {
    (0..n).map(|i| format!("h{i}")).collect()
}

#[test]
fn locate_finds_first_occurrence_with_full_window() {
    let hs = hashes(20);
    assert_eq!(locate_fg_window(&hs, "h3", 24), Ok(3));
    assert_eq!(
        locate_fg_window(&hs, "h5", 24),
        Err(MinaDaemonError::MalformedResponse(s(
            "Not enough blocks after F_g: need 16 but only 15 available"
        )))
    );
    assert_eq!(
        locate_fg_window(&hs, "zz", 24),
        Err(MinaDaemonError::StateHashMismatch(s(
            "group_finalization_state_hash zz not found in bestChain response of 24 blocks"
        )))
    );
}

#[test]
fn window_of_fg_starts_at_fg() {
    let hs = hashes(20);
    let chain = CandidateChain {
        state_hashes: hs.clone(),
        ledger_hashes: (0..20).map(|i| format!("l{i}")).collect(),
        proofs: (0..20u32).collect(),
    };
    let w = fg_window_from_chain(chain, "h2", 24).unwrap();
    assert_eq!(w.state_hashes, hs[2..18].to_vec());
    assert_eq!(w.ledger_hashes[0], "l2");
    assert_eq!(w.tip_proof, 17);

    let states: Vec<Result<u64, MinaDaemonError>> = (0..16u64).map(Ok).collect();
    let (proof, inputs) = state_proof_from_candidate_window(true, w, states).unwrap();
    assert_eq!(inputs.bridge_tip_state_hash, "h2");
    assert_eq!(inputs.candidate_chain_state_hashes.len(), 16);
    assert!(inputs.is_state_proof_from_devnet);
    assert_eq!(proof.candidate_tip_proof, 17);
    assert_eq!(proof.bridge_tip_state, 0);
    assert_eq!(proof.candidate_chain_states, (0..16u64).collect::<Vec<_>>());
}

#[test]
fn candidate_window_state_queries_first_error_wins() {
    let chain = CandidateChain {
        state_hashes: hashes(16),
        ledger_hashes: hashes(16),
        proofs: (0..16u32).collect(),
    };
    let w = fg_window_from_chain(chain, "h0", 20).unwrap();
    let mut states: Vec<Result<u64, MinaDaemonError>> = (0..16u64).map(Ok).collect();
    states[4] = Err(MinaDaemonError::RpcUnreachable(s("first")));
    states[9] = Err(MinaDaemonError::RpcUnreachable(s("second")));
    assert_eq!(
        state_proof_from_candidate_window(false, w, states).unwrap_err(),
        MinaDaemonError::RpcUnreachable(s("first"))
    );
}

#[test]
fn window_heights_count_up_from_fg() {
    let h = window_heights(500);
    assert_eq!(h.len(), 16);
    assert_eq!(h[0], 500);
    assert_eq!(h[15], 515);
}

#[test]
fn block_at_height_messages_name_the_height() {
    let r = block_at_height_from_reply::<u8>(9, GraphQLReply { errors: None, data: None });
    assert_eq!(
        r.unwrap_err(),
        MinaDaemonError::MalformedResponse(s("block(height:9): missing response data"))
    );
    let b = CandidateBlock { state_hash: s("a"), ledger_hash: s("l"), state_proof: None };
    assert_eq!(
        block_at_height_from_reply::<u8>(9, ok_reply(b)).unwrap_err(),
        MinaDaemonError::MalformedResponse(s("block(height:9): missing protocol state proof base64"))
    );
    let b = CandidateBlock {
        state_hash: s("a"),
        ledger_hash: s("l"),
        state_proof: Some(Err(DecodeFailure::Base64(s("bad")))),
    };
    assert_eq!(
        block_at_height_from_reply::<u8>(9, ok_reply(b)).unwrap_err(),
        MinaDaemonError::MalformedResponse(s("block(height:9): base64 decode: bad"))
    );
    let b = CandidateBlock {
        state_hash: s("a"),
        ledger_hash: s("l"),
        state_proof: Some(Err(DecodeFailure::Binprot(s("eof")))),
    };
    assert_eq!(
        block_at_height_from_reply::<u8>(9, ok_reply(b)).unwrap_err(),
        MinaDaemonError::MalformedResponse(s("block(height:9): binprot read: eof"))
    );
    let b = CandidateBlock { state_hash: s("a"), ledger_hash: s("l"), state_proof: Some(Ok(4u8)) };
    assert_eq!(block_at_height_from_reply(9, ok_reply(b)), Ok((s("a"), s("l"), 4u8)));
}

fn window_block(i: u64) -> WindowBlock<u64, u64> {
    WindowBlock { state_hash: format!("h{i}"), ledger_hash: format!("l{i}"), proof: 100 + i, state: 200 + i }
}

#[test]
fn per_height_window_bridge_tip_is_fg() {
    let results: Vec<Result<WindowBlock<u64, u64>, MinaDaemonError>> =
        (0..16).map(|i| Ok(window_block(i))).collect();
    let (proof, inputs) = state_proof_from_window(false, 1000, "h0", results).unwrap();
    assert_eq!(inputs.bridge_tip_state_hash, "h0");
    assert_eq!(inputs.candidate_chain_state_hashes, hashes(16));
    assert_eq!(inputs.candidate_chain_ledger_hashes[15], "l15");
    assert_eq!(proof.candidate_tip_proof, 115);
    assert_eq!(proof.bridge_tip_state, 200);
    assert_eq!(proof.candidate_chain_states.len(), 16);
}

#[test]
fn per_height_window_rejects_other_fg() {
    let results: Vec<Result<WindowBlock<u64, u64>, MinaDaemonError>> =
        (0..16).map(|i| Ok(window_block(i))).collect();
    assert_eq!(
        state_proof_from_window(false, 1000, "other", results).unwrap_err(),
        MinaDaemonError::StateHashMismatch(s(
            "State hash mismatch at F_g (height 1000): expected other, got h0"
        ))
    );
    let mut results: Vec<Result<WindowBlock<u64, u64>, MinaDaemonError>> =
        (0..16).map(|i| Ok(window_block(i))).collect();
    results[3] = Err(MinaDaemonError::GraphQLError(s("g")));
    assert_eq!(
        state_proof_from_window(false, 1000, "h0", results).unwrap_err(),
        MinaDaemonError::GraphQLError(s("g"))
    );
}

#[test]
fn base64_payloads_decode_in_their_alphabet() {
    assert_eq!(payload_bytes(Base64Alphabet::Standard, "aGVsbG8=").unwrap(), b"hello".to_vec());
    assert_eq!(payload_bytes(Base64Alphabet::UrlSafe, "-_8=").unwrap(), vec![0xfb, 0xff]);
    assert!(matches!(
        payload_bytes(Base64Alphabet::Standard, "-_8="),
        Err(DecodeFailure::Base64(_))
    ));
    assert!(matches!(payload_bytes(Base64Alphabet::UrlSafe, "+/8="), Err(DecodeFailure::Base64(_))));
}

fn entry(left: Option<Result<u8, ()>>, right: Option<Result<u8, ()>>) -> MerklePathEntry<u8> {
    MerklePathEntry { left, right }
}

fn account_reply(
    memberships: Vec<AccountMembership<u32, u8>>,
    ledger_hash: Result<u8, ()>,
) -> GraphQLReply<AccountQueryData<u32, u8>> {
    ok_reply(AccountQueryData { memberships, ledger_hash })
}

#[test]
fn account_reply_builds_merkle_path() {
    let m = AccountMembership {
        account: Ok(77u32),
        merkle_path: vec![entry(Some(Ok(1)), None), entry(None, Some(Ok(2)))],
    };
    let (a, l, nodes) = account_from_reply(account_reply(vec![m], Ok(9))).unwrap();
    assert_eq!(a, 77);
    assert_eq!(l, 9);
    assert!(matches!(nodes[0], MerkleNode::Left(1)));
    assert!(matches!(nodes[1], MerkleNode::Right(2)));
}

#[test]
fn account_reply_errors_in_reading_order() {
    assert_eq!(
        account_from_reply(account_reply(vec![], Ok(9))).unwrap_err(),
        MinaDaemonError::AccountNotFound(s("Failed to retrieve membership query field"))
    );
    let m = AccountMembership { account: Err(DecodeFailure::Base64(s("pad"))), merkle_path: vec![] };
    assert_eq!(
        account_from_reply(account_reply(vec![m], Err(()))).unwrap_err(),
        MinaDaemonError::MalformedResponse(s("Failed to decode account from base64: pad"))
    );
    let m = AccountMembership { account: Ok(1u32), merkle_path: vec![] };
    assert_eq!(
        account_from_reply(account_reply(vec![m], Err(()))).unwrap_err(),
        MinaDaemonError::MalformedResponse(s("Failed to convert snarked_ledger_hash to field element"))
    );
    let m = AccountMembership {
        account: Ok(1u32),
        merkle_path: vec![entry(Some(Ok(1)), None), entry(Some(Err(())), None)],
    };
    assert_eq!(
        account_from_reply(account_reply(vec![m], Ok(3))).unwrap_err(),
        MinaDaemonError::MalformedResponse(s("Error deserializing merkle path nodes"))
    );
}

#[test]
fn local_verification_outcome() {
    let results: Vec<Result<WindowBlock<u64, u64>, MinaDaemonError>> =
        (0..16).map(|i| Ok(window_block(i))).collect();
    let assembled = state_proof_from_window(true, 1000, "h0", results).unwrap();
    let (proof, inputs) = locally_verified(assembled.clone(), true).unwrap();
    assert_eq!(proof.candidate_tip_proof, 115);
    assert!(inputs.is_state_proof_from_devnet);
    assert_eq!(
        locally_verified(assembled, false).unwrap_err(),
        MinaDaemonError::LocalVerificationFailed(s("Mina state proof verification failed"))
    );
}
