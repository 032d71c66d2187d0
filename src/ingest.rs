//! Events from the collection agent's log records, and log records for the
//! downstream consumer.

use vstd::prelude::*;

use crate::event::{parse_json, parsed_json, uuid_text, uuid_text_of, Event};
use crate::json::{
    clone_entries, entries_same, keys_unique, lookup, object_get, remove_member, str_of, upsert, Json,
};

verus! {

/// A log event as the collection agent's protocol carries it, decoded into plain values.
#[derive(Debug)]
pub struct LogRecord {
    /// The log's single value, where it has one.
    pub value: Option<Json>,
    /// The log's fields, used where it has no single value.
    pub fields: Vec<(String, Json)>,
    /// The event metadata value.
    pub metadata: Option<Json>,
    pub source_type: Option<String>,
    pub source_id: Option<String>,
    /// The upstream event identifier: 16 bytes where present.
    pub source_event_id: Vec<u8>,
}

/// The integer whose big-endian bytes are `b`.
pub open spec fn be_value(b: Seq<u8>) -> int
    decreases b.len(),
{
    if b.len() == 0 {
        0
    } else {
        be_value(b.drop_last()) * 256 + b.last() as int
    }
}

/// Relies on `u128::from_be_bytes`: the integer whose big-endian bytes these are.
#[verifier::external_body]
fn u128_from_be(b: &Vec<u8>) -> (r: u128)
    requires
        b@.len() == 16,
    ensures
        r as int == be_value(b@),
{
    u128::from_be_bytes(b.as_slice().try_into().unwrap())
}

/// Relies on `u128::to_be_bytes`: the integer's 16 bytes, most significant first.
#[verifier::external_body]
fn u128_to_be(id: u128) -> (r: Vec<u8>)
    ensures
        r@.len() == 16,
        be_value(r@) == id as int,
{
    id.to_be_bytes().to_vec()
}

/// An event's payload: the log's value (a string that holds JSON is read as JSON),
/// or else an object of its fields.
pub open spec fn log_data(rec: LogRecord) -> Json {
    match rec.value {
        Some(Json::Str(s)) => match parsed_json(s@) {
            Some(j) => j,
            None => Json::Str(s),
        },
        Some(v) => v,
        None => Json::Object(rec.fields),
    }
}

/// An event's id: the upstream identifier where it is a UUID, else a fresh one.
pub open spec fn log_id(rec: LogRecord, fresh_id: u128) -> u128 {
    if rec.source_event_id@.len() == 16 {
        be_value(rec.source_event_id@) as u128
    } else {
        fresh_id
    }
}

/// The members of the log's metadata value.
pub open spec fn log_meta(rec: LogRecord) -> Seq<(String, Json)> {
    match rec.metadata {
        Some(Json::Object(m)) => m@,
        _ => seq![],
    }
}

/// The ingest time that the agent put under `vector.ingest_timestamp`.
pub open spec fn ingest_time(m: Seq<(String, Json)>) -> Option<Seq<char>> {
    match lookup(m, "vector"@) {
        Some(Json::Object(v)) => str_of(lookup(v@, "ingest_timestamp"@)),
        _ => None,
    }
}

/// Whether `k` is one of the metadata keys that ingest sets.
pub open spec fn ingest_key(k: Seq<char>) -> bool {
    k == "source_type"@ || k == "source_id"@ || k == "vector"@ || k == "timestamp"@ || k == "correlation_uid"@
}

/// `r` is the event for log record `rec`, with `fresh_id` where the record carries
/// no 16-byte identifier.
pub open spec fn ingested(r: Event, rec: LogRecord, fresh_id: u128) -> bool {
    &&& r.id == log_id(rec, fresh_id)
    &&& r.data == log_data(rec)
    &&& keys_unique(r.metadata@)
    &&& lookup(r.metadata@, "vector"@) is None
    &&& match rec.source_type {
        Some(t) => str_of(lookup(r.metadata@, "source_type"@)) == Some(t@),
        None => lookup(r.metadata@, "source_type"@) == lookup(log_meta(rec), "source_type"@),
    }
    &&& match rec.source_id {
        Some(t) => str_of(lookup(r.metadata@, "source_id"@)) == Some(t@),
        None => lookup(r.metadata@, "source_id"@) == lookup(log_meta(rec), "source_id"@),
    }
    &&& match ingest_time(log_meta(rec)) {
        Some(t) => str_of(lookup(r.metadata@, "timestamp"@)) == Some(t),
        None => lookup(r.metadata@, "timestamp"@) == lookup(log_meta(rec), "timestamp"@),
    }
    &&& if lookup(log_meta(rec), "correlation_uid"@) is Some {
        lookup(r.metadata@, "correlation_uid"@) == lookup(log_meta(rec), "correlation_uid"@)
    } else {
        str_of(lookup(r.metadata@, "correlation_uid"@)) == Some(uuid_text_of(r.id))
    }
    &&& forall|k: Seq<char>| !ingest_key(k) ==> #[trigger] lookup(r.metadata@, k) == lookup(log_meta(rec), k)
}

/// The event for a log record. Its metadata is the log's, with `source_type` and
/// `source_id` set from the record, `vector.ingest_timestamp` moved to `timestamp`,
/// and `correlation_uid` set to the event id where the log has none. `fresh_id`
/// is used where the record carries no 16-byte identifier.
pub fn event_from_log(rec: LogRecord, fresh_id: u128) -> (r: Event)
    requires
        keys_unique(log_meta(rec)),
    ensures
        ingested(r, rec, fresh_id),
{
    let ghost m0 = log_meta(rec);
    let LogRecord { value, fields, metadata, source_type, source_id, source_event_id } = rec;
    let data = match value {
        Some(Json::Str(s)) => match parse_json(s.as_str()) {
            Some(j) => j,
            None => Json::Str(s),
        },
        Some(v) => v,
        None => Json::Object(fields),
    };
    let mut meta: Vec<(String, Json)> = match metadata {
        Some(Json::Object(m)) => m,
        _ => Vec::new(),
    };
    proof {
        reveal_strlit("source_type");
        reveal_strlit("source_id");
        reveal_strlit("vector");
        reveal_strlit("timestamp");
        reveal_strlit("correlation_uid");
        assert("source_type"@.len() == 11 && "source_id"@.len() == 9 && "vector"@.len() == 6);
        assert("timestamp"@.len() == 9 && "correlation_uid"@.len() == 15);
        assert("source_id"@[7] == 'i' && "timestamp"@[7] == 'm');
    }
    let ghost t0 = ingest_time(m0);
    match source_type {
        Some(t) => upsert(&mut meta, String::from_str("source_type"), Json::Str(t)),
        None => {},
    }
    match source_id {
        Some(t) => upsert(&mut meta, String::from_str("source_id"), Json::Str(t)),
        None => {},
    }
    let ghost m1 = meta@;
    assert(ingest_time(m1) == t0);
    let vector = remove_member(&mut meta, "vector");
    let ts: Option<String> = match &vector {
        Some(Json::Object(v)) => match object_get(v, "ingest_timestamp") {
            Some(Json::Str(t)) => Some(t.clone()),
            _ => None,
        },
        _ => None,
    };
    match ts {
        Some(t) => upsert(&mut meta, String::from_str("timestamp"), Json::Str(t)),
        None => {},
    }
    let id = if source_event_id.len() == 16 {
        u128_from_be(&source_event_id)
    } else {
        fresh_id
    };
    if object_get(&meta, "correlation_uid").is_none() {
        upsert(&mut meta, String::from_str("correlation_uid"), Json::Str(uuid_text(id)));
    }
    Event { id, data, metadata: meta }
}

/// An event as a push request wraps it.
#[derive(Debug)]
pub enum WireEvent {
    Log(LogRecord),
    Metric,
    Trace,
    /// The wrapper holds no event.
    Missing,
}

/// Why a push request is refused.
#[derive(Clone, Copy, Debug, PartialEq, Eq, Structural)]
pub enum DecodeFailed {
    /// A wrapper holds no event.
    MissingEvent,
    /// Only log events are accepted.
    NotALog,
}

/// Why the first of the first `n` wrapped events that is no log is refused.
pub open spec fn first_refusal(ws: Seq<WireEvent>, n: int) -> Option<DecodeFailed>
    decreases n,
{
    if n <= 0 || n > ws.len() {
        None
    } else {
        match first_refusal(ws, n - 1) {
            Some(e) => Some(e),
            None => match ws[n - 1] {
                WireEvent::Log(_) => None,
                WireEvent::Missing => Some(DecodeFailed::MissingEvent),
                _ => Some(DecodeFailed::NotALog),
            },
        }
    }
}

/// The batch of a push request. Every wrapped event must be a log; the first one
/// that is not decides the refusal. The `i`-th event gets `fresh_ids[i]` where its
/// log carries no identifier.
pub fn accept_batch(events: Vec<WireEvent>, fresh_ids: &Vec<u128>) -> (r: Result<Vec<Event>, DecodeFailed>)
    requires
        events@.len() == fresh_ids@.len(),
        forall|i: int| 0 <= i < events@.len() ==> (#[trigger] events@[i] matches WireEvent::Log(rec) ==> keys_unique(log_meta(rec))),
    ensures
        match first_refusal(events@, events@.len() as int) {
            Some(e) => r == Err::<Vec<Event>, DecodeFailed>(e),
            None => r matches Ok(batch) && batch@.len() == events@.len() && forall|i: int|
                0 <= i < batch@.len() ==> ingested(#[trigger] batch@[i], events@[i]->Log_0, fresh_ids@[i]),
        },
{
    let ghost all = events@;
    let n = events.len();
    let mut rest = events;
    let mut out: Vec<Event> = Vec::new();
    let mut i: usize = 0;
    while i < n
        invariant
            all == events@,
            n == all.len(),
            n == fresh_ids@.len(),
            i <= n,
            rest@ == all.subrange(i as int, n as int),
            forall|q: int| 0 <= q < all.len() ==> (#[trigger] all[q] matches WireEvent::Log(rec) ==> keys_unique(log_meta(rec))),
            first_refusal(all, i as int) is None,
            out@.len() == i,
            forall|j: int| 0 <= j < i ==> ingested(#[trigger] out@[j], all[j]->Log_0, fresh_ids@[j]),
        decreases n - i,
    {
        assert(rest@[0] == all[i as int]);
        let w = rest.remove(0);
        assert(rest@ =~= all.subrange(i + 1, n as int));
        match w {
            WireEvent::Log(rec) => {
                let e = event_from_log(rec, fresh_ids[i]);
                out.push(e);
            },
            WireEvent::Missing => {
                proof {
                    assert(first_refusal(all, i + 1) == Some(DecodeFailed::MissingEvent));
                    lemma_refusal_persists(all, i + 1, n as int);
                }
                return Err(DecodeFailed::MissingEvent);
            },
            _ => {
                proof {
                    assert(first_refusal(all, i + 1) == Some(DecodeFailed::NotALog));
                    lemma_refusal_persists(all, i + 1, n as int);
                }
                return Err(DecodeFailed::NotALog);
            },
        }
        i = i + 1;
    }
    Ok(out)
}

/// Once an event is refused, every longer prefix is refused for the same reason.
pub proof fn lemma_refusal_persists(ws: Seq<WireEvent>, k: int, m: int)
    requires
        0 < k <= m <= ws.len(),
        first_refusal(ws, k) is Some,
    ensures
        first_refusal(ws, m) == first_refusal(ws, k),
    decreases m - k,
{
    if m > k {
        lemma_refusal_persists(ws, k, m - 1);
    }
}

/// The string that a metadata entry holds, taken out of its value.
pub open spec fn taken_str(v: Option<&Json>) -> Option<String> {
    match v {
        Some(Json::Str(s)) => Some(*s),
        _ => None,
    }
}

/// Whether `k` is one of the metadata keys that forwarding rewrites.
pub open spec fn forward_key(k: Seq<char>) -> bool {
    k == "source_type"@ || k == "source_id"@ || k == "vector"@ || k == "correlation_uid"@
}

/// `r` is the log record for the owned event `e`: the payload's members as fields,
/// `source_type` and `source_id` taken out of the metadata, `correlation_uid` set to
/// the event id where missing, and the `timestamp` copied to `vector.ingest_timestamp`
/// where `vector` is an object.
pub open spec fn forwarded(r: LogRecord, e: Event) -> bool {
    let m0 = e.metadata@;
    &&& r.value is None
    &&& r.source_event_id@.len() == 16
    &&& be_value(r.source_event_id@) == e.id as int
    &&& r.fields@ == match e.data {
        Json::Object(es) => es@,
        _ => seq![],
    }
    &&& r.source_type == taken_str(lookup(m0, "source_type"@))
    &&& r.source_id == taken_str(lookup(m0, "source_id"@))
    &&& r.metadata matches Some(Json::Object(m)) && {
        &&& keys_unique(m@)
        &&& lookup(m@, "source_type"@) is None
        &&& lookup(m@, "source_id"@) is None
        &&& if lookup(m0, "correlation_uid"@) is Some {
            lookup(m@, "correlation_uid"@) == lookup(m0, "correlation_uid"@)
        } else {
            str_of(lookup(m@, "correlation_uid"@)) == Some(uuid_text_of(e.id))
        }
        &&& match (lookup(m0, "vector"@), str_of(lookup(m0, "timestamp"@))) {
            (Some(Json::Object(v0)), Some(ts)) => lookup(m@, "vector"@) matches Some(Json::Object(v)) && str_of(
                lookup(v@, "ingest_timestamp"@),
            ) == Some(ts) && forall|k: Seq<char>|
                k != "ingest_timestamp"@ ==> #[trigger] lookup(v@, k) == lookup(v0@, k),
            _ => lookup(m@, "vector"@) == lookup(m0, "vector"@),
        }
        &&& forall|k: Seq<char>| !forward_key(k) ==> #[trigger] lookup(m@, k) == lookup(m0, k)
    }
}

/// The log record that forwards an owned event downstream.
pub fn log_from_event(e: Event) -> (r: LogRecord)
    requires
        keys_unique(e.metadata@),
    ensures
        forwarded(r, e),
{
    let ghost m0 = e.metadata@;
    let Event { id, data, metadata } = e;
    let fields = match data {
        Json::Object(es) => es,
        _ => Vec::new(),
    };
    let mut meta = metadata;
    proof {
        reveal_strlit("source_type");
        reveal_strlit("source_id");
        reveal_strlit("vector");
        reveal_strlit("timestamp");
        reveal_strlit("correlation_uid");
        reveal_strlit("ingest_timestamp");
        assert("source_type"@.len() == 11 && "source_id"@.len() == 9 && "vector"@.len() == 6);
        assert("timestamp"@.len() == 9 && "correlation_uid"@.len() == 15);
        assert("source_id"@[7] == 'i' && "timestamp"@[7] == 'm');
    }
    if object_get(&meta, "correlation_uid").is_none() {
        upsert(&mut meta, String::from_str("correlation_uid"), Json::Str(uuid_text(id)));
    }
    let ts: Option<String> = match object_get(&meta, "timestamp") {
        Some(Json::Str(t)) => Some(t.clone()),
        _ => None,
    };
    let vector_is_object = match object_get(&meta, "vector") {
        Some(Json::Object(_)) => true,
        _ => false,
    };
    match ts {
        Some(t) => if vector_is_object {
            let ghost tv = t@;
            match remove_member(&mut meta, "vector") {
                Some(Json::Object(mut vs)) => {
                    upsert(&mut vs, String::from_str("ingest_timestamp"), Json::Str(t));
                    proof {
                        assert(str_of(lookup(vs@, "ingest_timestamp"@)) == Some(tv));
                    }
                    upsert(&mut meta, String::from_str("vector"), Json::Object(vs));
                },
                _ => {},
            }
        },
        None => {},
    }
    let source_type = match remove_member(&mut meta, "source_type") {
        Some(Json::Str(s)) => Some(s),
        _ => None,
    };
    let source_id = match remove_member(&mut meta, "source_id") {
        Some(Json::Str(s)) => Some(s),
        _ => None,
    };
    LogRecord {
        value: None,
        fields,
        metadata: Some(Json::Object(meta)),
        source_type,
        source_id,
        source_event_id: u128_to_be(id),
    }
}

/// The log record that forwards `event` downstream: its payload's members as fields,
/// its metadata as the metadata value, and its id as the 16-byte source identifier.
pub fn log_of(event: &Event) -> (r: LogRecord)
    ensures
        r.value is None,
        r.source_type is None,
        r.source_id is None,
        r.source_event_id@.len() == 16,
        be_value(r.source_event_id@) == event.id as int,
        match event.data {
            Json::Object(es) => entries_same(r.fields@, es@),
            _ => r.fields@.len() == 0,
        },
        r.metadata matches Some(Json::Object(m)) && entries_same(m@, event.metadata@),
{
    let fields = match &event.data {
        Json::Object(es) => clone_entries(es),
        _ => Vec::new(),
    };
    LogRecord {
        value: None,
        fields,
        metadata: Some(Json::Object(clone_entries(&event.metadata))),
        source_type: None,
        source_id: None,
        source_event_id: u128_to_be(event.id),
    }
}

} // verus!
