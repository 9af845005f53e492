//! Mina archive node answers: the zkApp events emitted at a contract, the
//! Burn events among them, and the canonical block at a height.
//!
//! The GraphQL transport happens outside; the replies arrive here as plain
//! values. Parsing a public key's x-coordinate into a field element and
//! encoding the key as an address also happen outside: both candidate
//! addresses of an event's key arrive with the event.
use vstd::prelude::*;
use vstd::string::StringExecFns;

use crate::mina_daemon::{reported_errors, reports_errors, joined_errors, GraphQLReply};
use crate::rpcs::errors::MinaArchiveError;
use crate::text::{decimal, push_decimal, str_eq};

verus! {

// ---------------------------------------------------------------------------
// Public keys
// ---------------------------------------------------------------------------
/// Base58Check-encoded Mina public key address (`B62q...`).
#[derive(Debug, Clone)]
pub struct MinaPubKeyBase58(String);

impl View for MinaPubKeyBase58 {
    type V = Seq<char>;

    closed spec fn view(&self) -> Seq<char> {
        self.0@
    }
}

impl MinaPubKeyBase58 {
    /// The address with the given Base58Check text.
    pub fn new(address: String) -> (k: MinaPubKeyBase58)
        ensures
            k@ == address@,
    {
        MinaPubKeyBase58(address)
    }

    /// The address text, as `Display` shows it.
    pub fn to_string(&self) -> (s: String)
        ensures
            s@ == self@,
    {
        self.0.clone()
    }
}

/// The two addresses a compressed public key with a given x-coordinate can
/// have: with an even and with an odd y-coordinate.
#[derive(Debug, Clone)]
pub struct PubKeyCandidates {
    pub even: MinaPubKeyBase58,
    pub odd: MinaPubKeyBase58,
}

// ---------------------------------------------------------------------------
// zkApp events
// ---------------------------------------------------------------------------
/// The block an event output belongs to, as the archive renders it.
#[derive(Debug, Clone)]
pub struct BlockInfo {
    pub height: i64,
    pub state_hash: String,
}

/// The data of one emitted event: its field elements, some of which the
/// archive may render as null.
#[derive(Debug, Clone)]
pub struct EventData {
    pub data: Vec<Option<String>>,
}

/// An event output of the `events` query.
#[derive(Debug, Clone)]
pub struct EventOutput {
    pub block_info: Option<BlockInfo>,
    pub event_data: Option<Vec<Option<EventData>>>,
}

/// A raw zkApp event with block context.
///
/// o1js encodes every event emitted by a multi-event contract as
/// `[event_type, ...fields]`, where `event_type` is the alphabetical index of
/// the event name among all names the contract declares.
#[derive(Debug, Clone)]
pub struct ZkAppEvent {
    pub block_height: u64,
    pub state_hash: String,
    /// data[0]: alphabetical index of the event type.
    pub event_type: String,
    /// data[1..]: payload field elements.
    pub fields: Vec<String>,
}

/// An event seen through its views: height, state hash, type, fields.
pub type EventView = (u64, Seq<char>, Seq<char>, Seq<Seq<char>>);

pub open spec fn event_view(e: ZkAppEvent) -> EventView {
    (e.block_height, e.state_hash@, e.event_type@, e.fields@.map_values(|f: String| f@))
}

pub open spec fn event_views(es: Seq<ZkAppEvent>) -> Seq<EventView> {
    es.map_values(|e: ZkAppEvent| event_view(e))
}

/// The strings among `d` that are present, in order.
pub open spec fn present_strings(d: Seq<Option<String>>) -> Seq<Seq<char>>
    decreases d.len(),
{
    if d.len() == 0 {
        seq![]
    } else {
        match d.last() {
            Some(s) => present_strings(d.drop_last()).push(s@),
            None => present_strings(d.drop_last()),
        }
    }
}

/// The event of one event datum: none when it has no present field.
pub open spec fn datum_events(height: u64, state_hash: Seq<char>, d: EventData) -> Seq<EventView> {
    let strs = present_strings(d.data@);
    if strs.len() == 0 {
        seq![]
    } else {
        seq![(height, state_hash, strs[0], strs.drop_first())]
    }
}

/// The events of the present data of an output.
pub open spec fn data_events(height: u64, state_hash: Seq<char>, ds: Seq<Option<EventData>>) -> Seq<
    EventView,
>
    decreases ds.len(),
{
    if ds.len() == 0 {
        seq![]
    } else {
        data_events(height, state_hash, ds.drop_last()) + match ds.last() {
            Some(d) => datum_events(height, state_hash, d),
            None => seq![],
        }
    }
}

/// The events of a run of event data are those of its parts, in order,
/// however the run is split: no datum is lost or repeated.
pub proof fn data_events_of_parts(
    height: u64,
    state_hash: Seq<char>,
    a: Seq<Option<EventData>>,
    b: Seq<Option<EventData>>,
)
    ensures
        data_events(height, state_hash, a + b) == data_events(height, state_hash, a)
            + data_events(height, state_hash, b),
    decreases b.len(),
{
    if b.len() == 0 {
        assert(a + b =~= a);
        assert(data_events(height, state_hash, a) + seq![] =~= data_events(height, state_hash, a));
    } else {
        data_events_of_parts(height, state_hash, a, b.drop_last());
        assert((a + b).drop_last() =~= a + b.drop_last());
        assert((a + b).last() == b.last());
        let tail = match b.last() {
            Some(d) => datum_events(height, state_hash, d),
            None => seq![],
        };
        assert(data_events(height, state_hash, a) + data_events(height, state_hash, b.drop_last())
            + tail =~= data_events(height, state_hash, a) + (data_events(
            height,
            state_hash,
            b.drop_last(),
        ) + tail));
    }
}

/// One event datum gives one event when it has a present field: its first
/// present field is the event type and the others its fields, at the
/// output's block; without a present field, or absent, it gives none.
pub proof fn one_datum_events(height: u64, state_hash: Seq<char>, d: Option<EventData>)
    ensures
        match d {
            Some(x) => {
                let strs = present_strings(x.data@);
                if strs.len() > 0 {
                    data_events(height, state_hash, seq![d]) == seq![
                        (height, state_hash, strs[0], strs.drop_first()),
                    ]
                } else {
                    data_events(height, state_hash, seq![d]).len() == 0
                }
            },
            None => data_events(height, state_hash, seq![d]).len() == 0,
        },
{
    let ds = seq![d];
    assert(ds.drop_last() =~= Seq::<Option<EventData>>::empty());
    assert(ds.last() == d);
    assert(data_events(height, state_hash, ds.drop_last()) == Seq::<EventView>::empty());
    match d {
        Some(x) => {
            let strs = present_strings(x.data@);
            if strs.len() > 0 {
                assert(data_events(height, state_hash, ds) =~= seq![
                    (height, state_hash, strs[0], strs.drop_first()),
                ]);
            }
        },
        None => {},
    }
}

/// The events of the present outputs, in order; none when a present output
/// lacks its block info.
pub open spec fn outputs_events(os: Seq<Option<EventOutput>>) -> Option<Seq<EventView>>
    decreases os.len(),
{
    if os.len() == 0 {
        Some(seq![])
    } else {
        match outputs_events(os.drop_last()) {
            None => None,
            Some(r) => match os.last() {
                None => Some(r),
                Some(o) => match o.block_info {
                    None => None,
                    Some(bi) => Some(
                        r + match o.event_data {
                            None => seq![],
                            Some(ds) => data_events(bi.height as u64, bi.state_hash@, ds@),
                        },
                    ),
                },
            },
        }
    }
}

/// The events of a run of event outputs are those of its parts, in order,
/// however the run is split; the run is malformed when a part is.
pub proof fn outputs_events_of_parts(a: Seq<Option<EventOutput>>, b: Seq<Option<EventOutput>>)
    ensures
        outputs_events(a + b) == match outputs_events(a) {
            None => None,
            Some(x) => match outputs_events(b) {
                None => None,
                Some(y) => Some(x + y),
            },
        },
    decreases b.len(),
{
    if b.len() == 0 {
        assert(a + b =~= a);
        if let Some(x) = outputs_events(a) {
            assert(x + seq![] =~= x);
        }
    } else {
        outputs_events_of_parts(a, b.drop_last());
        assert((a + b).drop_last() =~= a + b.drop_last());
        assert((a + b).last() == b.last());
        if let Some(x) = outputs_events(a) {
            if let Some(y) = outputs_events(b.drop_last()) {
                if let Some(o) = b.last() {
                    if let Some(bi) = o.block_info {
                        let z = match o.event_data {
                            None => seq![],
                            Some(ds) => data_events(bi.height as u64, bi.state_hash@, ds@),
                        };
                        assert(x + y + z =~= x + (y + z));
                    }
                }
            }
        }
    }
}

fn present_strings_of(d: &Vec<Option<String>>) -> (r: Vec<String>)
    ensures
        r@.map_values(|f: String| f@) == present_strings(d@),
{
    let mut r: Vec<String> = Vec::new();
    for k in 0..d.len()
        invariant
            r@.map_values(|f: String| f@) == present_strings(d@.take(k as int)),
    {
        assert(d@.take(k + 1).drop_last() == d@.take(k as int));
        match &d[k] {
            Some(s) => {
                r.push(s.clone());
            },
            None => {},
        }
        assert(r@.map_values(|f: String| f@) == present_strings(d@.take(k + 1)));
    }
    assert(d@.take(d@.len() as int) == d@);
    r
}

fn datum_event(height: u64, state_hash: &String, d: &EventData) -> (r: Option<ZkAppEvent>)
    ensures
        match r {
            None => datum_events(height, state_hash@, *d) == Seq::<EventView>::empty(),
            Some(e) => datum_events(height, state_hash@, *d) == seq![event_view(e)],
        },
{
    let mut strs = present_strings_of(&d.data);
    if strs.len() == 0 {
        return None;
    }
    let ghost all = strs@;
    let event_type = strs.remove(0);
    let e = ZkAppEvent {
        block_height: height,
        state_hash: state_hash.clone(),
        event_type,
        fields: strs,
    };
    assert(strs@ == all.drop_first());
    assert(e.fields@.map_values(|f: String| f@) == all.map_values(|f: String| f@).drop_first());
    Some(e)
}

fn push_data_events(
    out: &mut Vec<ZkAppEvent>,
    height: u64,
    state_hash: &String,
    ds: &Vec<Option<EventData>>,
)
    ensures
        event_views(final(out)@) == event_views(old(out)@) + data_events(height, state_hash@, ds@),
{
    for k in 0..ds.len()
        invariant
            event_views(out@) == event_views(old(out)@) + data_events(
                height,
                state_hash@,
                ds@.take(k as int),
            ),
    {
        assert(ds@.take(k + 1).drop_last() == ds@.take(k as int));
        let ghost before = out@;
        match &ds[k] {
            Some(d) => {
                match datum_event(height, state_hash, d) {
                    Some(e) => {
                        out.push(e);
                        assert(event_views(out@) == event_views(before).push(event_view(e)));
                    },
                    None => {},
                }
            },
            None => {},
        }
        assert(event_views(out@) == event_views(old(out)@) + data_events(
            height,
            state_hash@,
            ds@.take(k + 1),
        ));
    }
    assert(ds@.take(ds@.len() as int) == ds@);
}

/// The zkApp events of an `events` reply: the data of each present event
/// datum of each present output, its first present field being the event
/// type, in order; a datum without any present field yields no event.
pub fn zk_app_events_from_reply(reply: GraphQLReply<Vec<Option<EventOutput>>>) -> (r: Result<
    Vec<ZkAppEvent>,
    MinaArchiveError,
>)
    ensures
        reports_errors(reply.errors) ==> (r matches Err(MinaArchiveError::GraphQLError(m)) && m@
            == joined_errors(reply.errors)),
        !reports_errors(reply.errors) ==> match reply.data {
            None => r matches Err(MinaArchiveError::MalformedResponse(m)) && m@
                == "missing response data"@,
            Some(os) => match outputs_events(os@) {
                None => r matches Err(MinaArchiveError::MalformedResponse(m)) && m@
                    == "Missing blockInfo in event output"@,
                Some(evs) => r matches Ok(v) && event_views(v@) == evs,
            },
        },
{
    if let Some(msgs) = reported_errors(&reply.errors) {
        return Err(MinaArchiveError::GraphQLError(msgs));
    }
    let os = match reply.data {
        Some(os) => os,
        None => {
            return Err(MinaArchiveError::MalformedResponse("missing response data".to_owned()));
        },
    };
    let mut events: Vec<ZkAppEvent> = Vec::new();
    for i in 0..os.len()
        invariant
            !reports_errors(reply.errors),
            reply.data == Some(os),
            outputs_events(os@.take(i as int)) == Some(event_views(events@)),
    {
        assert(os@.take(i + 1).drop_last() == os@.take(i as int));
        match &os[i] {
            None => {},
            Some(o) => {
                let bi = match &o.block_info {
                    Some(bi) => bi,
                    None => {
                        assert(outputs_events(os@.take(i + 1)) is None);
                        proof {
                            lemma_outputs_events_error_persists(os@, i + 1);
                        }
                        assert(os@.take(os@.len() as int) == os@);
                        return Err(
                            MinaArchiveError::MalformedResponse(
                                "Missing blockInfo in event output".to_owned(),
                            ),
                        );
                    },
                };
                let height = bi.height as u64;
                match &o.event_data {
                    Some(ds) => {
                        push_data_events(&mut events, height, &bi.state_hash, ds);
                    },
                    None => {
                        assert(event_views(events@) + Seq::<EventView>::empty() == event_views(
                            events@,
                        ));
                    },
                }
            },
        }
    }
    assert(os@.take(os@.len() as int) == os@);
    Ok(events)
}

/// Once a prefix of the outputs fails, every longer prefix fails.
proof fn lemma_outputs_events_error_persists(os: Seq<Option<EventOutput>>, i: int)
    requires
        0 <= i <= os.len(),
        outputs_events(os.take(i)) is None,
    ensures
        outputs_events(os) is None,
    decreases os.len() - i,
{
    if i < os.len() {
        assert(os.take(i + 1).drop_last() == os.take(i));
        lemma_outputs_events_error_persists(os, i + 1);
    } else {
        assert(os.take(i) == os);
    }
}

// ---------------------------------------------------------------------------
// Burn events
// ---------------------------------------------------------------------------
/// Alphabetical index of "Burn" among the FungibleToken contract's event
/// names: { BalanceChange=0, Burn=1, Mint=2, Pause=3, SetAdmin=4 }.
pub open spec fn burn_event_type() -> Seq<char> {
    "1"@
}

/// Parsed payload of a FungibleToken Burn event (`{ from: PublicKey,
/// amount: UInt64 }` in o1js).
#[derive(Debug, Clone)]
pub struct BurnEventPayload {
    /// The burning account, from data[1] (x-coordinate) and data[2] (parity).
    pub from: MinaPubKeyBase58,
    /// data[3]: amount burned (UInt64 as decimal string).
    pub amount: String,
}

/// A fully parsed Burn event with block context.
#[derive(Debug, Clone)]
pub struct BurnEvent {
    pub block_height: u64,
    pub state_hash: String,
    pub payload: BurnEventPayload,
}

/// A burn seen through its views: height, state hash, sender, amount.
pub type BurnView = (u64, Seq<char>, Seq<char>, Seq<char>);

pub open spec fn burn_view(b: BurnEvent) -> BurnView {
    (b.block_height, b.state_hash@, b.payload.from@, b.payload.amount@)
}

pub open spec fn burn_views(bs: Seq<BurnEvent>) -> Seq<BurnView> {
    bs.map_values(|b: BurnEvent| burn_view(b))
}

/// The prefix of the messages about a Burn event at `height`.
pub open spec fn burn_at(height: u64) -> Seq<char> {
    "Burn event at block "@ + decimal(height as nat)
}

/// What one event contributes: nothing (not a Burn), a burn, or an error.
/// `keys` are the candidate addresses of the event's x-coordinate, absent
/// when it is not a field element.
pub open spec fn burn_step(e: ZkAppEvent, keys: Option<PubKeyCandidates>) -> Option<
    Result<BurnView, Seq<char>>,
> {
    let h = e.block_height;
    let f = e.fields@;
    if e.event_type@ != burn_event_type() {
        None
    } else if f.len() < 3 {
        Some(
            Err(
                burn_at(h) + " has "@ + decimal(f.len()) + " payload fields, expected 3"@,
            ),
        )
    } else {
        match keys {
            None => Some(Err(burn_at(h) + ": invalid x-coordinate: "@ + f[0]@)),
            Some(k) => if f[1]@ == "0"@ {
                Some(Ok((h, e.state_hash@, k.even@, f[2]@)))
            } else if f[1]@ == "1"@ {
                Some(Ok((h, e.state_hash@, k.odd@, f[2]@)))
            } else {
                Some(Err(burn_at(h) + ": invalid is_odd value: "@ + f[1]@))
            },
        }
    }
}

/// The burns among `events`, in order, or the error of the first Burn event
/// that does not parse.
pub open spec fn burns_outcome(events: Seq<ZkAppEvent>, keys: Seq<Option<PubKeyCandidates>>) -> Result<
    Seq<BurnView>,
    Seq<char>,
>
    decreases events.len(),
{
    if events.len() == 0 {
        Ok(seq![])
    } else {
        match burns_outcome(events.drop_last(), keys) {
            Err(m) => Err(m),
            Ok(bs) => match burn_step(events.last(), keys[events.len() - 1]) {
                None => Ok(bs),
                Some(Ok(b)) => Ok(bs.push(b)),
                Some(Err(m)) => Err(m),
            },
        }
    }
}

fn burn_message(height: u64, detail: &str, value: &str) -> (s: String)
    ensures
        s@ == burn_at(height) + detail@ + value@,
{
    let mut s = "Burn event at block ".to_owned();
    push_decimal(&mut s, height as u128);
    s.append(detail);
    s.append(value);
    s
}

/// The Burn events among `events`, each with the candidate addresses of its
/// x-coordinate (`keys[i]` for `events[i]`, absent when the coordinate is
/// not a field element): events of another type are skipped; the first
/// Burn event that does not parse decides the error.
pub fn burns_from_events(events: Vec<ZkAppEvent>, keys: Vec<Option<PubKeyCandidates>>) -> (r: Result<
    Vec<BurnEvent>,
    MinaArchiveError,
>)
    requires
        keys@.len() == events@.len(),
    ensures
        match burns_outcome(events@, keys@) {
            Ok(bs) => r matches Ok(v) && burn_views(v@) == bs,
            Err(m) => r matches Err(MinaArchiveError::MalformedResponse(t)) && t@ == m,
        },
{
    let mut burns: Vec<BurnEvent> = Vec::new();
    assert(events@.take(0) =~= Seq::<ZkAppEvent>::empty());
    assert(burn_views(burns@) =~= Seq::<BurnView>::empty());
    for i in 0..events.len()
        invariant
            keys@.len() == events@.len(),
            burns_outcome(events@.take(i as int), keys@) == Ok::<Seq<BurnView>, Seq<char>>(
                burn_views(burns@),
            ),
    {
        assert(events@.take(i + 1).drop_last() == events@.take(i as int));
        let e = &events[i];
        let ghost step = burn_step(*e, keys@[i as int]);
        proof {
            reveal_strlit("1");
            reveal_strlit("0");
        }
        if str_eq(e.event_type.as_str(), "1") {
            let h = e.block_height;
            if e.fields.len() < 3 {
                let mut m = "Burn event at block ".to_owned();
                push_decimal(&mut m, h as u128);
                m.append(" has ");
                push_decimal(&mut m, e.fields.len() as u128);
                m.append(" payload fields, expected 3");
                proof {
                    lemma_burns_error_persists(events@, keys@, i + 1, m@);
                }
                return Err(MinaArchiveError::MalformedResponse(m));
            }
            let k = match &keys[i] {
                Some(k) => k,
                None => {
                    let m = burn_message(h, ": invalid x-coordinate: ", e.fields[0].as_str());
                    proof {
                        lemma_burns_error_persists(events@, keys@, i + 1, m@);
                    }
                    return Err(MinaArchiveError::MalformedResponse(m));
                },
            };
            let from = if str_eq(e.fields[1].as_str(), "0") {
                MinaPubKeyBase58(k.even.0.clone())
            } else if str_eq(e.fields[1].as_str(), "1") {
                MinaPubKeyBase58(k.odd.0.clone())
            } else {
                let m = burn_message(h, ": invalid is_odd value: ", e.fields[1].as_str());
                proof {
                    lemma_burns_error_persists(events@, keys@, i + 1, m@);
                }
                return Err(MinaArchiveError::MalformedResponse(m));
            };
            let b = BurnEvent {
                block_height: h,
                state_hash: e.state_hash.clone(),
                payload: BurnEventPayload { from, amount: e.fields[2].clone() },
            };
            let ghost before = burns@;
            burns.push(b);
            assert(step == Some(Ok::<BurnView, Seq<char>>(burn_view(b))));
            assert(burns@.drop_last() == before);
            assert(burn_views(burns@) =~= burn_views(before).push(burn_view(b)));
        } else {
            assert(step is None);
        }
    }
    assert(events@.take(events@.len() as int) == events@);
    Ok(burns)
}

/// Once a prefix of the events fails, every longer prefix fails alike.
proof fn lemma_burns_error_persists(
    events: Seq<ZkAppEvent>,
    keys: Seq<Option<PubKeyCandidates>>,
    i: int,
    m: Seq<char>,
)
    requires
        0 <= i <= events.len(),
        burns_outcome(events.take(i), keys) == Err::<Seq<BurnView>, Seq<char>>(m),
    ensures
        burns_outcome(events, keys) == Err::<Seq<BurnView>, Seq<char>>(m),
    decreases events.len() - i,
{
    if i < events.len() {
        assert(events.take(i + 1).drop_last() == events.take(i));
        lemma_burns_error_persists(events, keys, i + 1, m);
    } else {
        assert(events.take(i) == events);
    }
}

// ---------------------------------------------------------------------------
// Canonical block at a height
// ---------------------------------------------------------------------------
/// The height bounds `[height, height + 1)` of the canonical block query.
pub fn canonical_block_query_bounds(height: u64) -> (r: (i64, i64))
    requires
        height < u64::MAX,
    ensures
        r == (height as i64, (height + 1) as i64),
{
    (height as i64, (height + 1) as i64)
}

/// The first present entry of `s`.
pub open spec fn first_present(s: Seq<Option<String>>) -> Option<Seq<char>>
    decreases s.len(),
{
    if s.len() == 0 {
        None
    } else {
        match s[0] {
            Some(x) => Some(x@),
            None => first_present(s.drop_first()),
        }
    }
}

/// The state hash of the canonical block from a canonical block reply (the
/// state hashes of the blocks it lists): the first block listed, if any.
pub fn canonical_block_from_reply(reply: GraphQLReply<Vec<Option<String>>>) -> (r: Result<
    Option<String>,
    MinaArchiveError,
>)
    ensures
        reports_errors(reply.errors) ==> (r matches Err(MinaArchiveError::GraphQLError(m)) && m@
            == joined_errors(reply.errors)),
        !reports_errors(reply.errors) ==> match reply.data {
            None => r matches Err(MinaArchiveError::MalformedResponse(m)) && m@
                == "missing response data"@,
            Some(blocks) => match first_present(blocks@) {
                None => r == Ok::<Option<String>, MinaArchiveError>(None),
                Some(h) => r matches Ok(Some(s)) && s@ == h,
            },
        },
{
    if let Some(msgs) = reported_errors(&reply.errors) {
        return Err(MinaArchiveError::GraphQLError(msgs));
    }
    let blocks = match reply.data {
        Some(b) => b,
        None => {
            return Err(MinaArchiveError::MalformedResponse("missing response data".to_owned()));
        },
    };
    let ghost orig = blocks@;
    let n = blocks.len();
    let mut i: usize = 0;
    assert(orig.subrange(0, n as int) == orig);
    while i < n
        invariant
            !reports_errors(reply.errors),
            reply.data == Some(blocks),
            orig == blocks@,
            n == orig.len(),
            i <= n,
            first_present(orig) == first_present(orig.subrange(i as int, n as int)),
        decreases n - i,
    {
        assert(orig.subrange(i as int, n as int).drop_first() == orig.subrange(i + 1, n as int));
        match &blocks[i] {
            Some(h) => {
                return Ok(Some(h.clone()));
            },
            None => {},
        }
        i = i + 1;
    }
    Ok(None)
}

// ---------------------------------------------------------------------------
// Laws
// ---------------------------------------------------------------------------
/// The events of the Burn type, in order.
pub open spec fn burn_typed(events: Seq<ZkAppEvent>) -> Seq<ZkAppEvent> {
    events.filter(|e: ZkAppEvent| e.event_type@ == burn_event_type())
}

/// Burns come one for one from the Burn events, in order: when the events
/// parse, there are as many burns as Burn-typed events, each with its
/// event's block height and state hash.
pub proof fn lemma_burns_follow_burn_events(
    events: Seq<ZkAppEvent>,
    keys: Seq<Option<PubKeyCandidates>>,
)
    requires
        burns_outcome(events, keys) is Ok,
    ensures
        ({
            let bs = burns_outcome(events, keys)->Ok_0;
            let ts = burn_typed(events);
            &&& bs.len() == ts.len()
            &&& forall|i: int|
                0 <= i < bs.len() ==> (#[trigger] bs[i]).0 == ts[i].block_height && bs[i].1
                    == ts[i].state_hash@
        }),
    decreases events.len(),
{
    reveal(Seq::filter);
    if events.len() > 0 {
        let prev = events.drop_last();
        lemma_burns_follow_burn_events(prev, keys);
        let pb = burns_outcome(prev, keys)->Ok_0;
        let pt = burn_typed(prev);
        let bs = burns_outcome(events, keys)->Ok_0;
        let ts = burn_typed(events);
        let e = events.last();
        if e.event_type@ == burn_event_type() {
            assert(ts == pt.push(e));
            assert(bs.len() == pb.len() + 1);
            assert forall|i: int| 0 <= i < bs.len() implies (#[trigger] bs[i]).0
                == ts[i].block_height && bs[i].1 == ts[i].state_hash@ by {
                if i < pb.len() {
                    assert(bs[i] == pb[i]);
                    assert(ts[i] == pt[i]);
                }
            }
        } else {
            assert(ts == pt);
            assert(bs == pb);
        }
    }
}

} // verus!
