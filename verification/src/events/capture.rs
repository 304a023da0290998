//! Capturing contract events and filtering them by contract and by topic,
//! without hand-decoding `Val` topics.
use soroban_sdk::testutils::Events as _;
use soroban_sdk::xdr::{ContractEvent, ContractEventBody, Limits, ScAddress, ScVal, WriteXdr};
use soroban_sdk::{Address, Env, TryFromVal, Val};
use vstd::prelude::*;

use crate::auth::grid::address_key;
use crate::base::env::{copy_address, share_env, TestEnv};
use crate::tokens::sac::address_debug_text;

verus! {

/// A contract event in its XDR form, carried through opaquely.
#[verifier::external_type_specification]
#[verifier::external_body]
pub struct ExContractEvent(ContractEvent);

/// An XDR value, carried through opaquely.
#[verifier::external_type_specification]
#[verifier::external_body]
pub struct ExScVal(ScVal);

/// The contract events of the most recent top-level invocation in `env`, in
/// publish order (`testutils::Events::all`, then `ContractEvents::events`).
/// Nothing is stated of the result: it is host state.
#[verifier::external_body]
fn raw_events(env: &Env) -> Vec<ContractEvent> {
    env.events().all().events().to_vec()
}

/// The address of the contract that published `e`, if it names one that
/// converts into `env` (`Address::try_from_val` of the event's contract
/// id). Nothing is stated of the result.
#[verifier::external_body]
fn event_contract(env: &Env, e: &ContractEvent) -> Option<Address> {
    let id = e.contract_id.clone()?;
    Address::try_from_val(env, &ScAddress::Contract(id)).ok()
}

/// The topics of `e`, in publish order (the topics of its `V0` body).
/// Nothing is stated of the result.
#[verifier::external_body]
fn event_topics(e: &ContractEvent) -> Vec<ScVal> {
    match &e.body {
        ContractEventBody::V0(body) => body.topics.to_vec(),
    }
}

/// The data payload of `e` (the data of its `V0` body). Nothing is stated
/// of the result.
#[verifier::external_body]
fn event_data(e: &ContractEvent) -> ScVal {
    match &e.body {
        ContractEventBody::V0(body) => body.data.clone(),
    }
}

/// `v` converted into a value of `env` (`Val::try_from_val`), if it
/// converts. Nothing is stated of the result.
#[verifier::external_body]
fn scval_into_env(env: &Env, v: &ScVal) -> Option<Val> {
    Val::try_from_val(env, v).ok()
}

/// `v` converted out of `env` into its XDR form (`ScVal::try_from_val`), if
/// it converts. Nothing is stated of the result.
#[verifier::external_body]
fn val_out_of_env(env: &Env, v: &Val) -> Option<ScVal> {
    ScVal::try_from_val(env, v).ok()
}

/// The XDR encoding of `v` (`WriteXdr::to_xdr` with no limits), if it
/// encodes. Nothing is stated of the result; topics are compared by these
/// bytes because XDR gives each value one encoding.
#[verifier::external_body]
fn scval_bytes(v: &ScVal) -> Option<Vec<u8>> {
    v.to_xdr(Limits::none()).ok()
}

/// The `Debug` rendering of a list of values (`format!("{:?}")`), for
/// failure messages. Nothing is stated of the result.
#[verifier::external_body]
fn vals_debug_text(vals: &Vec<Val>) -> String {
    format!("{:?}", vals)
}

/// The `Debug` rendering of a value (`format!("{:?}")`), for failure
/// messages. Nothing is stated of the result.
#[verifier::external_body]
fn val_debug_text(v: &Val) -> String {
    format!("{:?}", v)
}

/// A single contract event, decoded into SDK types.
#[derive(Debug)]
pub struct CapturedEvent {
    /// The contract that published the event.
    pub contract: Address,
    /// The event's topics, in publish order.
    pub topics: Vec<Val>,
    /// The event's data payload.
    pub data: Val,
}

/// What the filters and assertions read of an event, as plain values: the
/// publishing contract's key, the XDR encoding of each topic (`None` where
/// a topic does not encode), and the event's rendering for messages.
#[derive(Debug)]
pub struct EventRecord {
    /// The key of the publishing contract's address.
    pub contract_key: String,
    /// The XDR encoding of each topic, in publish order.
    pub topic_keys: Vec<Option<Vec<u8>>>,
    /// How the event renders in failure messages.
    pub line: String,
}

/// The abstract content of an [`EventRecord`].
pub struct RecordView {
    /// The key of the publishing contract.
    pub contract: Seq<char>,
    /// The encodings of the topics.
    pub topics: Seq<Option<Seq<u8>>>,
    /// The rendering.
    pub line: Seq<char>,
}

/// The view of an optional byte vector.
pub open spec fn opt_bytes(o: Option<Vec<u8>>) -> Option<Seq<u8>> {
    match o {
        Some(v) => Some(v@),
        None => None,
    }
}

impl View for EventRecord {
    type V = RecordView;

    open spec fn view(&self) -> RecordView {
        RecordView {
            contract: self.contract_key@,
            topics: self.topic_keys@.map_values(|t: Option<Vec<u8>>| opt_bytes(t)),
            line: self.line@,
        }
    }
}

/// One contract event as the host reported it, converted into values of
/// the environment: the publishing contract with the key of its address
/// (`None` where the event names no contract that converts), the topics
/// that convert with the encoding of each, the data payload (`None` where
/// it does not convert), and the `Debug` renderings of the three.
pub struct ConvertedEvent {
    /// The publishing contract and the key of its address.
    pub contract: Option<(Address, String)>,
    /// The topics that convert, in publish order.
    pub topics: Vec<Val>,
    /// The XDR encoding of each of those topics.
    pub topic_keys: Vec<Option<Vec<u8>>>,
    /// The data payload, where it converts.
    pub data: Option<Val>,
    /// The rendering of the contract.
    pub contract_text: String,
    /// The rendering of the topics.
    pub topics_text: String,
    /// The rendering of the data.
    pub data_text: String,
}

/// What [`EventLog::assemble`] reads of a [`ConvertedEvent`].
pub struct ConvertedView {
    /// The key of the publishing contract, if there is one.
    pub contract_key: Option<Seq<char>>,
    /// The encodings of the topics.
    pub topics: Seq<Option<Seq<u8>>>,
    /// The data payload, if it converts.
    pub data: Option<Val>,
    /// The rendering of the contract.
    pub contract_text: Seq<char>,
    /// The rendering of the topics.
    pub topics_text: Seq<char>,
    /// The rendering of the data.
    pub data_text: Seq<char>,
}

impl View for ConvertedEvent {
    type V = ConvertedView;

    open spec fn view(&self) -> ConvertedView {
        ConvertedView {
            contract_key: match self.contract {
                Some(c) => Some(c.1@),
                None => None,
            },
            topics: self.topic_keys@.map_values(|t: Option<Vec<u8>>| opt_bytes(t)),
            data: self.data,
            contract_text: self.contract_text@,
            topics_text: self.topics_text@,
            data_text: self.data_text@,
        }
    }
}

/// An event becomes a record when it names a contract and its data
/// converts.
pub open spec fn is_kept(c: ConvertedView) -> bool {
    c.contract_key is Some && c.data is Some
}

/// How an event renders in failure messages.
pub open spec fn line_of(c: ConvertedView) -> Seq<char> {
    "contract="@ + c.contract_text + " topics="@ + c.topics_text + " data="@ + c.data_text
}

/// The record of a kept event.
pub open spec fn record_of(c: ConvertedView) -> RecordView {
    RecordView { contract: c.contract_key->0, topics: c.topics, line: line_of(c) }
}

/// The records of the kept events, one each, in order.
pub open spec fn kept_records(s: Seq<ConvertedView>) -> Seq<RecordView> {
    s.filter(|c: ConvertedView| is_kept(c)).map_values(|c: ConvertedView| record_of(c))
}

/// The data payloads of the kept events, in order.
pub open spec fn kept_data(s: Seq<ConvertedView>) -> Seq<Val> {
    s.filter(|c: ConvertedView| is_kept(c)).map_values(|c: ConvertedView| c.data->0)
}

/// The views of a list of converted events.
pub open spec fn converted_views(s: Seq<ConvertedEvent>) -> Seq<ConvertedView> {
    s.map_values(|c: ConvertedEvent| c@)
}

/// A filterable, assertable log of captured contract events.
///
/// Obtained from [`TestEnv::events`] or [`TestEnv::events_during`]. Filters
/// return a new log, so they chain. The underlying SDK reports the events
/// of the most recent top-level contract invocation, not a history since
/// the environment was created.
pub struct EventLog {
    env: Env,
    events: Vec<CapturedEvent>,
    records: Vec<EventRecord>,
}

/// An event was published by the contract whose key is `key`.
pub open spec fn published_by(key: Seq<char>) -> spec_fn(RecordView) -> bool {
    |r: RecordView| r.contract == key
}

/// An event carries a topic whose encoding is `query` (never, when the
/// query does not encode).
pub open spec fn carries_topic(query: Option<Seq<u8>>) -> spec_fn(RecordView) -> bool {
    |r: RecordView| query is Some && r.topics.contains(query)
}

impl EventLog {
    /// Events and their records correspond one to one.
    #[verifier::type_invariant]
    spec fn aligned(&self) -> bool {
        self.events.len() == self.records.len()
    }

    /// The records of the captured events, in order.
    pub closed spec fn records(&self) -> Seq<RecordView> {
        self.records@.map_values(|r: EventRecord| r@)
    }

    /// The data payloads of the captured events, in order.
    pub closed spec fn data_of(&self) -> Seq<Val> {
        self.events@.map_values(|e: CapturedEvent| e.data)
    }

    /// The environment the log was captured from, in which its topics and
    /// data are interpreted.
    pub closed spec fn host(&self) -> Env {
        self.env
    }

    /// Build the log of `converted` in `env`: one event and one record for
    /// each converted event that names a contract and whose data converts,
    /// in order; the others are left out.
    pub fn assemble(env: &Env, converted: &Vec<ConvertedEvent>) -> (r: Self)
        ensures
            r.host() == *env,
            r.records() == kept_records(converted_views(converted@)),
            r.data_of() == kept_data(converted_views(converted@)),
    {
        let ghost cv = converted_views(converted@);
        let mut events: Vec<CapturedEvent> = Vec::new();
        let mut records: Vec<EventRecord> = Vec::new();
        let mut i: usize = 0;
        while i < converted.len()
            invariant
                i <= converted.len(),
                cv == converted_views(converted@),
                events.len() == records.len(),
                records@.map_values(|r: EventRecord| r@) == kept_records(cv.take(i as int)),
                events@.map_values(|e: CapturedEvent| e.data) == kept_data(cv.take(i as int)),
            decreases converted.len() - i,
        {
            let c = &converted[i];
            let ghost before_r = records@.map_values(|r: EventRecord| r@);
            let ghost before_d = events@.map_values(|e: CapturedEvent| e.data);
            proof {
                reveal(Seq::filter);
                assert(cv.take(i + 1).drop_last() =~= cv.take(i as int));
                assert(cv.take(i + 1).last() == cv[i as int]);
                assert(cv[i as int] == c@);
            }
            match (&c.contract, &c.data) {
                (Some(pair), Some(data)) => {
                    let mut line = String::from_str("contract=");
                    line.append(c.contract_text.as_str());
                    line.append(" topics=");
                    line.append(c.topics_text.as_str());
                    line.append(" data=");
                    line.append(c.data_text.as_str());
                    let mut topics: Vec<Val> = Vec::new();
                    let mut k: usize = 0;
                    while k < c.topics.len()
                        invariant
                            k <= c.topics.len(),
                        decreases c.topics.len() - k,
                    {
                        topics.push(c.topics[k]);
                        k = k + 1;
                    }
                    let mut topic_keys: Vec<Option<Vec<u8>>> = Vec::new();
                    let mut k: usize = 0;
                    while k < c.topic_keys.len()
                        invariant
                            k <= c.topic_keys.len(),
                            topic_keys.len() == k,
                            forall|j: int| 0 <= j < k ==> opt_bytes(#[trigger] topic_keys@[j]) == opt_bytes(c.topic_keys@[j]),
                        decreases c.topic_keys.len() - k,
                    {
                        let t = match &c.topic_keys[k] {
                            Some(b) => Some(b.clone()),
                            None => None,
                        };
                        topic_keys.push(t);
                        k = k + 1;
                    }
                    let rec = EventRecord { contract_key: pair.1.clone(), topic_keys, line };
                    assert(rec@.topics =~= c@.topics);
                    assert(rec@ == record_of(c@));
                    let d: Val = *data;
                    events.push(CapturedEvent { contract: copy_address(&pair.0), topics, data: d });
                    records.push(rec);
                    assert(records@.map_values(|r: EventRecord| r@) =~= before_r.push(record_of(c@)));
                    assert(events@.map_values(|e: CapturedEvent| e.data) =~= before_d.push(d));
                },
                _ => {
                    assert(!is_kept(c@));
                },
            }
            i = i + 1;
        }
        assert(cv.take(converted.len() as int) =~= cv);
        EventLog { env: share_env(env), events, records }
    }

    /// Capture the events `env` reports for its most recent top-level
    /// invocation, in publish order, into a log bound to `env`: each event
    /// is converted into values of `env` and then assembled by
    /// [`EventLog::assemble`].
    pub(crate) fn capture(env: &Env) -> (r: Self)
        ensures
            r.host() == *env,
            exists|raw: Seq<ConvertedView>|
                r.records() == #[trigger] kept_records(raw) && r.data_of() == kept_data(raw),
    {
        let raw = raw_events(env);
        let mut converted: Vec<ConvertedEvent> = Vec::new();
        let mut i: usize = 0;
        while i < raw.len()
            invariant
                i <= raw.len(),
            decreases raw.len() - i,
        {
            let e = &raw[i];
            let contract: Option<(Address, String)> = match event_contract(env, e) {
                Some(a) => {
                    let key = address_key(&a);
                    Some((a, key))
                },
                None => None,
            };
            let scvals = event_topics(e);
            let mut topics: Vec<Val> = Vec::new();
            let mut topic_keys: Vec<Option<Vec<u8>>> = Vec::new();
            let mut k: usize = 0;
            while k < scvals.len()
                invariant
                    k <= scvals.len(),
                decreases scvals.len() - k,
            {
                match scval_into_env(env, &scvals[k]) {
                    Some(v) => {
                        topics.push(v);
                        topic_keys.push(scval_bytes(&scvals[k]));
                    },
                    None => {},
                }
                k = k + 1;
            }
            let data = scval_into_env(env, &event_data(e));
            let contract_text = match &contract {
                Some(pair) => address_debug_text(&pair.0),
                None => String::new(),
            };
            let topics_text = vals_debug_text(&topics);
            let data_text = match &data {
                Some(d) => val_debug_text(d),
                None => String::new(),
            };
            converted.push(
                ConvertedEvent { contract, topics, topic_keys, data, contract_text, topics_text, data_text },
            );
            i = i + 1;
        }
        let r = Self::assemble(env, &converted);
        assert(r.records() == kept_records(converted_views(converted@)));
        r
    }

    /// The number of captured events.
    pub fn len(&self) -> (r: usize)
        ensures
            r == self.records().len(),
    {
        proof {
            use_type_invariant(self);
        }
        self.records.len()
    }

    /// Whether no events were captured.
    pub fn is_empty(&self) -> (r: bool)
        ensures
            r == (self.records().len() == 0),
    {
        self.records.len() == 0
    }

    /// A copy of event `i` and its record.
    fn copy_event(&self, i: usize) -> (r: (CapturedEvent, EventRecord))
        requires
            i < self.records().len(),
        ensures
            r.1@ == self.records()[i as int],
    {
        proof {
            use_type_invariant(self);
        }
        let e = &self.events[i];
        let mut topics: Vec<Val> = Vec::new();
        let mut k: usize = 0;
        while k < e.topics.len()
            invariant
                k <= e.topics.len(),
            decreases e.topics.len() - k,
        {
            topics.push(e.topics[k]);
            k = k + 1;
        }
        let rec = &self.records[i];
        let mut topic_keys: Vec<Option<Vec<u8>>> = Vec::new();
        let mut k: usize = 0;
        while k < rec.topic_keys.len()
            invariant
                k <= rec.topic_keys.len(),
                topic_keys.len() == k,
                forall|j: int| 0 <= j < k ==> opt_bytes(#[trigger] topic_keys@[j]) == opt_bytes(rec.topic_keys@[j]),
            decreases rec.topic_keys.len() - k,
        {
            let t = match &rec.topic_keys[k] {
                Some(b) => Some(b.clone()),
                None => None,
            };
            topic_keys.push(t);
            k = k + 1;
        }
        let copy = EventRecord { contract_key: rec.contract_key.clone(), topic_keys, line: rec.line.clone() };
        assert(copy@.topics =~= rec@.topics);
        (CapturedEvent { contract: copy_address(&e.contract), topics, data: e.data }, copy)
    }

    /// Keep only the events whose record satisfies `keep`, in order.
    fn retain_where(&self, Ghost(keep): Ghost<spec_fn(RecordView) -> bool>, decide: &Vec<bool>) -> (r: EventLog)
        requires
            decide.len() == self.records().len(),
            forall|i: int| 0 <= i < decide.len() ==> #[trigger] decide@[i] == keep(self.records()[i]),
        ensures
            r.records() == self.records().filter(keep),
            r.host() == self.host(),
    {
        proof {
            use_type_invariant(self);
        }
        let mut events: Vec<CapturedEvent> = Vec::new();
        let mut records: Vec<EventRecord> = Vec::new();
        let mut i: usize = 0;
        while i < self.records.len()
            invariant
                i <= self.records.len(),
                self.events.len() == self.records.len(),
                decide.len() == self.records().len(),
                forall|a: int| 0 <= a < decide.len() ==> #[trigger] decide@[a] == keep(self.records()[a]),
                events.len() == records.len(),
                records@.map_values(|r: EventRecord| r@) == self.records().take(i as int).filter(keep),
            decreases self.records.len() - i,
        {
            proof {
                reveal(Seq::filter);
                assert(self.records().take(i + 1).drop_last() =~= self.records().take(i as int));
            }
            if decide[i] {
                let (e, r) = self.copy_event(i);
                let ghost before = records@;
                events.push(e);
                records.push(r);
                assert(records@.map_values(|r: EventRecord| r@) =~= before.map_values(|r: EventRecord| r@).push(self.records()[i as int]));
            }
            i = i + 1;
        }
        assert(self.records().take(self.records.len() as int) =~= self.records());
        EventLog { env: share_env(&self.env), events, records }
    }

    /// Keep only events published by `contract` (compared by the key of its
    /// address, as [`EventLog::published_by_key`] does).
    pub fn from(&self, contract: &Address) -> (r: EventLog)
        ensures
            exists|key: Seq<char>| r.records() == self.records().filter(#[trigger] published_by(key)),
            r.host() == self.host(),
    {
        let key = address_key(contract);
        self.published_by_key(&key)
    }

    /// Keep only events whose publishing contract's key is `key`, in order.
    pub fn published_by_key(&self, key: &String) -> (r: EventLog)
        ensures
            r.records() == self.records().filter(published_by(key@)),
            r.host() == self.host(),
    {
        let mut decide: Vec<bool> = Vec::new();
        let mut i: usize = 0;
        while i < self.records.len()
            invariant
                i <= self.records.len(),
                decide.len() == i,
                forall|a: int| 0 <= a < i ==> #[trigger] decide@[a] == published_by(key@)(self.records()[a]),
            decreases self.records.len() - i,
        {
            decide.push(self.records[i].contract_key == *key);
            i = i + 1;
        }
        self.retain_where(Ghost(published_by(key@)), &decide)
    }

    /// The XDR encoding of `topic` as a value of this log's environment,
    /// or `None` where it has none.
    pub(crate) fn topic_query(&self, topic: Val) -> Option<Vec<u8>> {
        match val_out_of_env(&self.env, &topic) {
            Some(v) => scval_bytes(&v),
            None => None,
        }
    }

    /// Keep only events with a topic equal to `topic` (compared by XDR
    /// value, as [`EventLog::with_encoded_topic`] does). A topic that has no
    /// XDR form matches nothing.
    pub fn with_topic(&self, topic: Val) -> (r: EventLog)
        ensures
            exists|query: Option<Seq<u8>>| r.records() == self.records().filter(#[trigger] carries_topic(query)),
            r.host() == self.host(),
    {
        let query = self.topic_query(topic);
        self.with_encoded_topic(&query)
    }

    /// Keep only events carrying a topic whose XDR encoding is `query`, in
    /// order; a `None` query matches nothing.
    pub fn with_encoded_topic(&self, query: &Option<Vec<u8>>) -> (r: EventLog)
        ensures
            r.records() == self.records().filter(carries_topic(opt_bytes(*query))),
            r.host() == self.host(),
    {
        let ghost q = opt_bytes(*query);
        let mut decide: Vec<bool> = Vec::new();
        let mut i: usize = 0;
        while i < self.records.len()
            invariant
                i <= self.records.len(),
                decide.len() == i,
                q == opt_bytes(*query),
                forall|a: int| 0 <= a < i ==> #[trigger] decide@[a] == carries_topic(q)(self.records()[a]),
            decreases self.records.len() - i,
        {
            let hit = match query {
                Some(qb) => has_topic(&self.records[i].topic_keys, qb),
                None => false,
            };
            decide.push(hit);
            i = i + 1;
        }
        self.retain_where(Ghost(carries_topic(q)), &decide)
    }

    /// The data payload of the only event, if the log holds exactly one.
    pub(crate) fn only_data(&self) -> (r: Option<Val>)
        ensures
            r is Some <==> self.records().len() == 1,
            r matches Some(v) ==> v == self.data_of()[0],
    {
        proof {
            use_type_invariant(self);
        }
        if self.events.len() == 1 {
            Some(self.events[0].data)
        } else {
            None
        }
    }

    /// The renderings of the captured events, in order.
    pub(crate) fn lines(&self) -> (r: Vec<String>)
        ensures
            r@.map_values(|s: String| s@) == self.records().map_values(|rv: RecordView| rv.line),
    {
        let mut out: Vec<String> = Vec::new();
        let mut i: usize = 0;
        while i < self.records.len()
            invariant
                i <= self.records.len(),
                out@.map_values(|s: String| s@) == self.records().take(i as int).map_values(|rv: RecordView| rv.line),
            decreases self.records.len() - i,
        {
            let ghost before = out@;
            let line = self.records[i].line.clone();
            assert(self.records()[i as int].line == line@);
            out.push(line);
            assert(out@.map_values(|s: String| s@) =~= before.map_values(|s: String| s@).push(line@));
            assert(self.records().take(i + 1).map_values(|rv: RecordView| rv.line) =~= self.records().take(i as int).map_values(|rv: RecordView| rv.line).push(line@));
            assert(out@.map_values(|s: String| s@) =~= self.records().take(i + 1).map_values(|rv: RecordView| rv.line));
            i = i + 1;
        }
        assert(self.records().take(self.records.len() as int) =~= self.records());
        out
    }
}

/// Whether `keys` holds the encoding `query`.
fn has_topic(keys: &Vec<Option<Vec<u8>>>, query: &Vec<u8>) -> (r: bool)
    ensures
        r == keys@.map_values(|t: Option<Vec<u8>>| opt_bytes(t)).contains(Some(query@)),
{
    let ghost ks = keys@.map_values(|t: Option<Vec<u8>>| opt_bytes(t));
    let mut i: usize = 0;
    while i < keys.len()
        invariant
            i <= keys.len(),
            ks == keys@.map_values(|t: Option<Vec<u8>>| opt_bytes(t)),
            forall|j: int| 0 <= j < i ==> ks[j] != Some(query@),
        decreases keys.len() - i,
    {
        match &keys[i] {
            Some(k) => {
                if bytes_equal(k, query) {
                    assert(ks[i as int] == Some(query@));
                    return true;
                }
            },
            None => {},
        }
        i = i + 1;
    }
    assert(!ks.contains(Some(query@))) by {
        if ks.contains(Some(query@)) {
            let j = choose|j: int| 0 <= j < ks.len() && ks[j] == Some(query@);
            assert(ks[j] != Some(query@));
        }
    }
    false
}

/// Whether two byte vectors hold the same bytes.
fn bytes_equal(a: &Vec<u8>, b: &Vec<u8>) -> (r: bool)
    ensures
        r == (a@ == b@),
{
    if a.len() != b.len() {
        return false;
    }
    let mut i: usize = 0;
    while i < a.len()
        invariant
            i <= a.len(),
            a.len() == b.len(),
            forall|j: int| 0 <= j < i ==> a@[j] == b@[j],
        decreases a.len() - i,
    {
        if a[i] != b[i] {
            return false;
        }
        i = i + 1;
    }
    assert(a@ =~= b@);
    true
}

impl TestEnv {
    /// The events of the most recent top-level contract invocation.
    pub fn events(&self) -> (r: EventLog)
        ensures
            r.host() == self.sdk_env(),
    {
        EventLog::capture(self.env())
    }

    /// Run `f`, then return its result alongside the events it published.
    pub fn events_during<T, F: FnOnce() -> T>(&self, f: F) -> (r: (T, EventLog))
        requires
            call_requires(f, ()),
        ensures
            call_ensures(f, (), r.0),
    {
        let result = f();
        (result, self.events())
    }
}

} // verus!

verus! {

proof fn lemma_filter_commutes(s: Seq<RecordView>, p: spec_fn(RecordView) -> bool, q: spec_fn(RecordView) -> bool)
    ensures
        s.filter(p).filter(q) == s.filter(q).filter(p),
    decreases s.len(),
{
    reveal(Seq::filter);
    if s.len() > 0 {
        lemma_filter_commutes(s.drop_last(), p, q);
        let l = s.last();
        let sp = s.drop_last().filter(p);
        let sq = s.drop_last().filter(q);
        if p(l) {
            assert(sp.push(l).drop_last() =~= sp);
        }
        if q(l) {
            assert(sq.push(l).drop_last() =~= sq);
        }
        if p(l) && q(l) {
            assert(sp.push(l).filter(q) =~= sp.filter(q).push(l));
            assert(sq.push(l).filter(p) =~= sq.filter(p).push(l));
        } else if p(l) {
            assert(sp.push(l).filter(q) =~= sp.filter(q));
        } else if q(l) {
            assert(sq.push(l).filter(p) =~= sq.filter(p));
        }
    }
}

/// Filtering by contract and by topic compose in either order: the events
/// of `key` carrying `query` are the events carrying `query` of `key`.
pub proof fn lemma_contract_and_topic_filters_commute(
    records: Seq<RecordView>,
    key: Seq<char>,
    query: Option<Seq<u8>>,
)
    ensures
        records.filter(published_by(key)).filter(carries_topic(query)) == records.filter(
            carries_topic(query),
        ).filter(published_by(key)),
{
    lemma_filter_commutes(records, published_by(key), carries_topic(query));
}

/// A filter never adds events: every event it keeps was captured, and
/// applying the same filter twice keeps the same events.
pub proof fn lemma_filter_keeps_a_sublog(records: Seq<RecordView>, p: spec_fn(RecordView) -> bool)
    ensures
        records.filter(p).len() <= records.len(),
        forall|i: int| 0 <= i < records.filter(p).len() ==> records.contains(#[trigger] records.filter(p)[i]),
        records.filter(p).filter(p) == records.filter(p),
    decreases records.len(),
{
    broadcast use vstd::seq_lib::group_filter_ensures;
    reveal(Seq::filter);
    if records.len() > 0 {
        lemma_filter_keeps_a_sublog(records.drop_last(), p);
        let sp = records.drop_last().filter(p);
        if p(records.last()) {
            assert(sp.push(records.last()).drop_last() =~= sp);
        }
    }
}

} // verus!
