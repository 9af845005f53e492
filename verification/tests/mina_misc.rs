use mina_bridge_core::rpcs::error::{labelled, Error};
use mina_bridge_core::rpcs::errors::{HttpError, MinaArchiveError};
use mina_bridge_core::text::{chars_of, contains_chars, is_white_space_exec, push_decimal, push_int, str_eq, string_of};
use mina_bridge_core::mina_daemon::{assemble_state_proof, candidate_chain_query_length, candidate_window, CandidateChain};
use mina_bridge_core::payload::{decode_base64, Base64Alphabet};
use mina_bridge_core::mina::{
    account_from_data, first_pass_tip_window, root_from_reply, root_query_length,
    snarked_tip_window, state_from_data, tip_chain_from_reply, tip_state_proof,
};
use mina_bridge_core::mina_daemon::{
    account_proof_from_parts, body_read_error, json_parse_error, AccountMembership,
    AccountQueryData, CandidateBlock, DecodeFailure, MerkleNode, MerklePathEntry,
};
use mina_bridge_core::nori::{unlock_may_proceed, unlock_tokens_call, AccountVerificationData};
use mina_bridge_core::results::collect_results;
use mina_bridge_core::rpcs::errors::MinaDaemonError;
use mina_bridge_core::text::{contains, decimal_string, join, parse_u64, trim, IntParseError};

fn s(x: &str) -> String {
    x.to_string()
}

#[test]
fn text_helpers() {
    assert_eq!(parse_u64("18446744073709551615"), Ok(u64::MAX));
    assert_eq!(parse_u64("18446744073709551616"), Err(IntParseError::PosOverflow));
    assert_eq!(parse_u64("+7"), Ok(7));
    assert_eq!(parse_u64(""), Err(IntParseError::Empty));
    assert_eq!(parse_u64("-1"), Err(IntParseError::InvalidDigit));
    assert_eq!(IntParseError::Empty.to_string(), "cannot parse integer from empty string");
    assert_eq!(trim("\t a b \n"), "a b");
    assert_eq!(join(&vec![s("x"), s("y")], ", "), "x, y");
    assert_eq!(join(&vec![], ", "), "");
    assert!(contains("abcdef", "cde"));
    assert!(!contains("abc", "abcd"));
    assert_eq!(decimal_string(0), "0");
    assert_eq!(decimal_string(1234567890123), "1234567890123");
}

#[test]
fn results_first_error_wins() {
    let ok: Vec<Result<u8, &str>> = vec![Ok(1), Ok(2)];
    assert_eq!(collect_results(ok), Ok(vec![1, 2]));
    let bad: Vec<Result<u8, &str>> = vec![Ok(1), Err("a"), Err("b")];
    assert_eq!(collect_results(bad), Err("a"));
}

fn tip_block(i: usize, proof: Option<Result<u8, DecodeFailure>>) -> CandidateBlock<u8> {
    CandidateBlock { state_hash: format!("h{i}"), ledger_hash: format!("l{i}"), state_proof: proof }
}

fn tip_blocks(last: Option<Result<u8, DecodeFailure>>) -> Vec<CandidateBlock<u8>> {
    let mut v: Vec<CandidateBlock<u8>> = (0..15).map(|i| tip_block(i, None)).collect();
    v.push(tip_block(15, last));
    v
}

#[test]
fn tip_chain_needs_a_full_window() {
    let r = tip_chain_from_reply(Some(Some(vec![tip_block(0, None)])));
    assert_eq!(r.unwrap_err(), "Not enough blocks (1) were returned from query");
    assert_eq!(
        tip_chain_from_reply::<u8>(None).unwrap_err(),
        "Missing candidate query response data"
    );
    assert_eq!(tip_chain_from_reply(Some(Some(tip_blocks(None)))).unwrap().len(), 16);
}

#[test]
fn tip_window_from_states() {
    let states: Vec<Result<u32, String>> = (0..16).map(Ok).collect();
    let w = snarked_tip_window(tip_blocks(Some(Ok(9))), states).unwrap();
    assert_eq!(w.tip_proof, 9);
    assert_eq!(w.state_hashes[15], "h15");
    assert_eq!(w.ledger_hashes[3], "l3");
    assert_eq!(w.states.len(), 16);

    let states: Vec<Result<u32, String>> = (0..16).map(Ok).collect();
    assert_eq!(snarked_tip_window(tip_blocks(None), states).unwrap_err(), "No tip state proof");
    let mut states: Vec<Result<u32, String>> = (0..16).map(Ok).collect();
    states[2] = Err(s("state query failed"));
    assert_eq!(
        snarked_tip_window(tip_blocks(Some(Err(DecodeFailure::Base64(s("x"))))), states).unwrap_err(),
        "state query failed"
    );
    let states: Vec<Result<u32, String>> = (0..16).map(Ok).collect();
    assert_eq!(
        snarked_tip_window(tip_blocks(Some(Err(DecodeFailure::Base64(s("x"))))), states).unwrap_err(),
        "Couldn't decode state proof from base64: x"
    );

    let states: Vec<Result<(u32, String), String>> =
        (0..16).map(|i| Ok((i, format!("fp{i}")))).collect();
    let w = first_pass_tip_window(tip_blocks(Some(Ok(1))), states).unwrap();
    assert_eq!(w.ledger_hashes[5], "fp5");
    assert_eq!(w.states[5], 5);

    let (proof, inputs) = tip_state_proof(true, s("bridge"), 77u32, w);
    assert_eq!(inputs.bridge_tip_state_hash, "bridge");
    assert_eq!(proof.bridge_tip_state, 77);
    assert_eq!(proof.candidate_tip_proof, 1);
    assert_eq!(inputs.candidate_chain_state_hashes.len(), 16);
}

#[test]
fn legacy_state_and_root_queries() {
    assert_eq!(state_from_data::<u8>(None).unwrap_err(), "Missing state query response data");
    assert_eq!(
        state_from_data::<u8>(Some(Err(DecodeFailure::Binprot(s("eof"))))).unwrap_err(),
        "Couldn't read state binprot: eof"
    );
    assert_eq!(state_from_data(Some(Ok(3u8))), Ok(3));
    assert_eq!(root_query_length(16), 16);
    assert_eq!(root_from_reply(Some(Some(vec![s("r"), s("t")]))), Ok(s("r")));
    assert_eq!(root_from_reply(Some(Some(vec![]))), Err(s("No root state")));
    assert_eq!(root_from_reply(None), Err(s("Missing root hash query response data")));
}

#[test]
fn legacy_account_query() {
    let d = AccountQueryData {
        memberships: vec![AccountMembership {
            account: Ok(5u32),
            merkle_path: vec![MerklePathEntry { left: None, right: Some(Ok(8u8)) }],
        }],
        ledger_hash: Ok(1u8),
    };
    let (a, l, nodes) = account_from_data(Some(d)).unwrap();
    assert_eq!((a, l), (5, 1));
    assert!(matches!(nodes[0], MerkleNode::Right(8)));
    assert_eq!(
        account_from_data::<u32, u8>(None).unwrap_err(),
        "Missing merkle query response data"
    );
    let (p, i) = account_proof_from_parts(5u32, 1u8, nodes, Ok(vec![1, 2])).unwrap();
    assert_eq!(p.account, 5);
    assert_eq!(i.encoded_account, vec![1, 2]);
    assert_eq!(
        account_proof_from_parts(5u32, 1u8, vec![], Err(s("abi"))).unwrap_err(),
        MinaDaemonError::SerializationError(s("abi"))
    );
    assert_eq!(
        body_read_error(true, "gzip"),
        MinaDaemonError::MalformedResponse(s("failed to read response body: gzip"))
    );
    assert_eq!(
        body_read_error(false, "reset"),
        MinaDaemonError::RpcUnreachable(s("failed to read response body: reset"))
    );
    assert_eq!(
        json_parse_error("eof"),
        MinaDaemonError::MalformedResponse(s("Failed to parse JSON: eof"))
    );
}

#[test]
fn unlock_steps() {
    assert_eq!(unlock_may_proceed(Ok(())), Ok(false));
    assert_eq!(unlock_may_proceed(Err(s("Latest chain is already verified"))), Ok(true));
    assert_eq!(unlock_may_proceed(Err(s("boom"))), Err(s("boom")));
    let data = AccountVerificationData {
        proof_commitment: [1; 32],
        proving_system_aux_data_commitment: [2; 32],
        proof_generator_addr: [3; 20],
        batch_merkle_root: [4; 32],
        merkle_proof: vec![5],
        verification_data_batch_index: 6,
        pub_input: vec![7],
    };
    let c = unlock_tokens_call(1000, data, "0x000000000000000000000000000000000000dEaD");
    assert_eq!(c.to_unlock_amount, 1000);
    assert_eq!(c.verification_data_batch_index, 6);
    let mut dead = [0u8; 20];
    dead[18] = 0xde;
    dead[19] = 0xad;
    assert_eq!(c.batcher_payment_service, dead);
}

#[test]
fn string_helpers_and_errors() {
    assert_eq!(labelled("a: ", "b"), "a: b");
    assert_eq!(Error::missing_env_var("X").0, "missing env var: X");
    assert_eq!(chars_of("héllo"), vec!['h', 'é', 'l', 'l', 'o']);
    assert_eq!(string_of(&vec!['o', 'k']), "ok");
    assert!(contains_chars(&vec!['a', 'b', 'c'], &vec!['b', 'c']));
    assert!(is_white_space_exec('\u{00A0}'));
    assert!(!is_white_space_exec('x'));
    assert!(str_eq("same", "same"));
    assert!(!str_eq("same", "Same"));
    let mut t = s("n=");
    push_decimal(&mut t, 42);
    push_int(&mut t, -7);
    assert_eq!(t, "n=42-7");
    let http = |is_decode, is_request, is_status, status| HttpError {
        is_decode,
        is_request,
        is_status,
        status,
        text: s("t"),
    };
    assert_eq!(MinaDaemonError::from_http(http(true, false, false, None)), MinaDaemonError::MalformedResponse(s("t")));
    assert_eq!(MinaDaemonError::from_http(http(false, true, false, None)), MinaDaemonError::BadRequest(s("t")));
    assert_eq!(MinaDaemonError::from_http(http(false, false, true, Some(404))), MinaDaemonError::BadRequest(s("t")));
    assert_eq!(MinaDaemonError::from_http(http(false, false, true, Some(503))), MinaDaemonError::RpcUnreachable(s("t")));
    assert_eq!(MinaArchiveError::from_http(http(false, false, false, None)), MinaArchiveError::RpcUnreachable(s("t")));
    assert_eq!(Error::from_daemon_error(&MinaDaemonError::BlockTooOld(s("x"))).0, "block too old: x");
    assert_eq!(Error::from_archive_error(&MinaArchiveError::BadRequest(s("y"))).0, "bad request: y");
}

#[test]
fn window_assembly_pieces() {
    assert_eq!(candidate_chain_query_length(40), Ok(40));
    let hs: Vec<String> = (0..20).map(|i| format!("h{i}")).collect();
    let w = candidate_window(
        CandidateChain { state_hashes: hs.clone(), ledger_hashes: hs.clone(), proofs: (0..20u8).collect() },
        4,
    );
    assert_eq!(w.state_hashes, hs[4..20].to_vec());
    assert_eq!(w.tip_proof, 19);
    let (p, i) = assemble_state_proof(false, hs[0..16].to_vec(), hs[0..16].to_vec(), 3u8, vec![9u8; 16]);
    assert_eq!(i.bridge_tip_state_hash, "h0");
    assert_eq!(p.bridge_tip_state, 9);
    assert_eq!(decode_base64(Base64Alphabet::Standard, "AAEC").unwrap(), vec![0, 1, 2]);
    assert!(decode_base64(Base64Alphabet::Standard, "A").is_err());
}
