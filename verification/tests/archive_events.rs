use mina_bridge_core::mina_archive::{
    burns_from_events, canonical_block_from_reply, canonical_block_query_bounds,
    zk_app_events_from_reply, BlockInfo, EventData, EventOutput, MinaPubKeyBase58,
    PubKeyCandidates, ZkAppEvent,
};
use mina_bridge_core::mina_daemon::GraphQLReply;
use mina_bridge_core::rpcs::errors::MinaArchiveError;

fn s(x: &str) -> String {
    x.to_string()
}

fn data(fields: &[Option<&str>]) -> Option<EventData> {
    Some(EventData { data: fields.iter().map(|f| f.map(s)).collect() })
}

fn output(height: i64, hash: &str, datas: Vec<Option<EventData>>) -> Option<EventOutput> {
    Some(EventOutput {
        block_info: Some(BlockInfo { height, state_hash: s(hash) }),
        event_data: Some(datas),
    })
}

#[test]
fn events_are_flattened_in_order() {
    let outputs = vec![
        output(10, "A", vec![data(&[Some("1"), Some("x"), Some("0"), Some("5")]), None]),
        None,
        output(11, "B", vec![data(&[None, Some("2"), None, Some("y")]), data(&[None, None])]),
    ];
    let events =
        zk_app_events_from_reply(GraphQLReply { errors: None, data: Some(outputs) }).unwrap();
    assert_eq!(events.len(), 2);
    assert_eq!(events[0].block_height, 10);
    assert_eq!(events[0].state_hash, "A");
    assert_eq!(events[0].event_type, "1");
    assert_eq!(events[0].fields, vec![s("x"), s("0"), s("5")]);
    assert_eq!(events[1].block_height, 11);
    assert_eq!(events[1].event_type, "2");
    assert_eq!(events[1].fields, vec![s("y")]);
}

#[test]
fn events_need_block_info() {
    let outputs = vec![
        output(10, "A", vec![]),
        Some(EventOutput { block_info: None, event_data: None }),
    ];
    let r = zk_app_events_from_reply(GraphQLReply { errors: None, data: Some(outputs) });
    assert_eq!(
        r.unwrap_err(),
        MinaArchiveError::MalformedResponse(s("Missing blockInfo in event output"))
    );
    let r = zk_app_events_from_reply(GraphQLReply { errors: Some(vec![s("e1"), s("e2")]), data: None });
    assert_eq!(r.unwrap_err(), MinaArchiveError::GraphQLError(s("e1; e2")));
    let r = zk_app_events_from_reply(GraphQLReply { errors: None, data: None });
    assert_eq!(r.unwrap_err(), MinaArchiveError::MalformedResponse(s("missing response data")));
}

fn event(height: u64, ty: &str, fields: &[&str]) -> ZkAppEvent {
    ZkAppEvent {
        block_height: height,
        state_hash: format!("S{height}"),
        event_type: s(ty),
        fields: fields.iter().map(|f| s(f)).collect(),
    }
}

fn keys() -> Option<PubKeyCandidates> {
    Some(PubKeyCandidates {
        even: MinaPubKeyBase58::new(s("B62qEVEN")),
        odd: MinaPubKeyBase58::new(s("B62qODD")),
    })
}

#[test]
fn burns_keep_only_burn_events() {
    let events = vec![
        event(5, "0", &["a"]),
        event(6, "1", &["123", "1", "1000"]),
        event(7, "2", &[]),
        event(8, "1", &["456", "0", "7"]),
    ];
    let burns = burns_from_events(events, vec![None, keys(), None, keys()]).unwrap();
    assert_eq!(burns.len(), 2);
    assert_eq!(burns[0].block_height, 6);
    assert_eq!(burns[0].state_hash, "S6");
    assert_eq!(burns[0].payload.from.to_string(), "B62qODD");
    assert_eq!(burns[0].payload.amount, "1000");
    assert_eq!(burns[1].payload.from.to_string(), "B62qEVEN");
    assert_eq!(burns[1].payload.amount, "7");
}

#[test]
fn burn_errors_name_the_block() {
    let r = burns_from_events(vec![event(6, "1", &["123", "1"])], vec![keys()]);
    assert_eq!(
        r.unwrap_err(),
        MinaArchiveError::MalformedResponse(s("Burn event at block 6 has 2 payload fields, expected 3"))
    );
    let r = burns_from_events(vec![event(6, "1", &["zz", "1", "3"])], vec![None]);
    assert_eq!(
        r.unwrap_err(),
        MinaArchiveError::MalformedResponse(s("Burn event at block 6: invalid x-coordinate: zz"))
    );
    let r = burns_from_events(vec![event(6, "1", &["12", "2", "3"])], vec![keys()]);
    assert_eq!(
        r.unwrap_err(),
        MinaArchiveError::MalformedResponse(s("Burn event at block 6: invalid is_odd value: 2"))
    );
    let r = burns_from_events(
        vec![event(6, "1", &["12", "9", "3"]), event(7, "1", &["1"])],
        vec![keys(), keys()],
    );
    assert_eq!(
        r.unwrap_err(),
        MinaArchiveError::MalformedResponse(s("Burn event at block 6: invalid is_odd value: 9"))
    );
}

#[test]
fn canonical_block_is_first_listed() {
    assert_eq!(canonical_block_query_bounds(41), (41, 42));
    let r = canonical_block_from_reply(GraphQLReply {
        errors: None,
        data: Some(vec![None, Some(s("3NA")), Some(s("3NB"))]),
    });
    assert_eq!(r, Ok(Some(s("3NA"))));
    let r = canonical_block_from_reply(GraphQLReply { errors: None, data: Some(vec![None]) });
    assert_eq!(r, Ok(None));
    let r = canonical_block_from_reply(GraphQLReply { errors: None, data: None });
    assert_eq!(r, Err(MinaArchiveError::MalformedResponse(s("missing response data"))));
}
