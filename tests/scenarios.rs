use std::collections::HashMap;
use std::sync::Arc;

use sigmars::event::{LogSource, RefEvent};
use sigmars::SigmaCollection;
use tokio::sync::broadcast::{self, error::TryRecvError};

use striem::detection::{build_finding, descriptor_fits, findings, logsource_of, raw_payload};
use striem::event::Event;
use striem::ingest::{accept_batch, DecodeFailed, LogRecord, WireEvent};
use striem::json::{Json, Num};
use striem::supervisor::{step, Action, Input, Role, TaskState};

const CLOUDTRAIL_RULE: &str = r#"
title: console login
id: console-login
logsource:
  product: aws
  service: cloudtrail
detection:
  selection:
    EventName: ConsoleLogin
  condition: selection
"#;

fn json_of(v: serde_json::Value) -> Json {
    match v {
        serde_json::Value::Null => Json::Null,
        serde_json::Value::Bool(b) => Json::Bool(b),
        serde_json::Value::Number(n) => Json::Num(match (n.as_i64(), n.as_u64()) {
            (Some(i), _) => Num::Int(i),
            (None, Some(u)) => Num::UInt(u),
            _ => Num::Float(n.as_f64().unwrap().to_bits()),
        }),
        serde_json::Value::String(s) => Json::Str(s),
        serde_json::Value::Array(a) => Json::Array(a.into_iter().map(json_of).collect()),
        serde_json::Value::Object(m) => Json::Object(m.into_iter().map(|(k, v)| (k, json_of(v))).collect()),
    }
}

fn uuid_text(id: u128) -> String {
    uuid::Uuid::from_u128(id).to_string()
}

fn parse_json(text: &str) -> Option<Json> {
    serde_json::from_str(text).ok().map(json_of)
}

fn to_serde(v: &Json) -> serde_json::Value {
    match v {
        Json::Null => serde_json::Value::Null,
        Json::Bool(b) => serde_json::Value::Bool(*b),
        Json::Num(striem::json::Num::Int(i)) => serde_json::Value::from(*i),
        Json::Num(striem::json::Num::UInt(u)) => serde_json::Value::from(*u),
        Json::Num(striem::json::Num::Float(b)) => serde_json::Value::from(f64::from_bits(*b)),
        Json::Str(s) => serde_json::Value::from(s.as_str()),
        Json::Array(a) => serde_json::Value::Array(a.iter().map(to_serde).collect()),
        Json::Object(m) => serde_json::Value::Object(m.iter().map(|(k, v)| (k.clone(), to_serde(v))).collect()),
    }
}

fn event(id: u128, data: &str, metadata: &str) -> Event {
    match parse_json(metadata).unwrap() {
        Json::Object(m) => Event { id, data: parse_json(data).unwrap(), metadata: m },
        _ => panic!("metadata must be an object"),
    }
}

// Matches an event the way the detection worker does, and makes its findings.
fn detect(rules: &SigmaCollection, e: &Event, ids: Vec<u128>) -> Vec<Event> {
    let logsource = logsource_of(e).map(|v| LogSource::from(to_serde(v))).unwrap_or_default();
    let raw = raw_payload(e);
    let data = to_serde(raw.as_ref().unwrap_or(&e.data));
    let metadata: HashMap<String, serde_json::Value> = e.metadata.iter().map(|(k, v)| (k.clone(), to_serde(v))).collect();
    let matched = rules.get_detection_matches_from_ref(&RefEvent { data: &data, metadata: &metadata, logsource });
    let resolved: Vec<Option<Json>> = matched.iter().map(|id| rules.get(id).map(|r| json_of(serde_json::Value::from(r)))).collect();
    assert!(resolved.iter().flatten().all(descriptor_fits));
    findings(e, resolved, &ids[..matched.len()].to_vec())
}

fn str_at<'a>(v: &'a Json, path: &[&str]) -> Option<&'a str> {
    let mut cur = v;
    for k in path {
        cur = cur.get(k)?;
    }
    match cur {
        Json::Str(s) => Some(s.as_str()),
        _ => None,
    }
}

#[test]
fn rule_match_yields_correlated_finding() {
    let rules: SigmaCollection = CLOUDTRAIL_RULE.parse().unwrap();
    let id: u128 = 0x018f_0000_0000_7000_8000_0000_0000_00aa;
    let e = event(id, r#"{"EventName":"ConsoleLogin"}"#, r#"{"logsource":{"product":"aws","service":"cloudtrail"}}"#);
    let out = detect(&rules, &e, vec![1, 2]);
    assert_eq!(out.len(), 1);
    let f = &out[0];
    assert_eq!(str_at(&f.data, &["metadata", "uid"]), Some(uuid_text(id).as_str()));
    assert_eq!(str_at(&f.data, &["metadata", "product", "vendor_name"]), Some("StrIEM"));
    assert_eq!(str_at(&f.data, &["metadata", "product", "product_name"]), Some("StrIEM"));
    assert_eq!(str_at(&f.data, &["finding_info", "title"]), Some("console login"));
}

#[test]
fn other_logsource_does_not_match() {
    let rules: SigmaCollection = CLOUDTRAIL_RULE.parse().unwrap();
    let e = event(3, r#"{"EventName":"ConsoleLogin"}"#, r#"{"logsource":{"product":"okta"}}"#);
    assert!(detect(&rules, &e, vec![1]).is_empty());
}

#[test]
fn raw_data_is_matched_for_ocsf_events() {
    let rules: SigmaCollection = CLOUDTRAIL_RULE.parse().unwrap();
    let data = r#"{"class_uid":3002,"raw_data":"{\"EventName\":\"ConsoleLogin\"}"}"#;
    let ocsf = event(4, data, r#"{"ocsf":true,"logsource":{"product":"aws","service":"cloudtrail"}}"#);
    assert_eq!(detect(&rules, &ocsf, vec![9]).len(), 1);
    let plain = event(4, data, r#"{"logsource":{"product":"aws","service":"cloudtrail"}}"#);
    assert!(detect(&rules, &plain, vec![9]).is_empty());
}

#[test]
fn finding_metadata_copies_source_metadata() {
    let e = event(8, r#"{}"#, r#"{"source_type":"aws_s3","ocsf":false,"timestamp":"t"}"#);
    let f = build_finding(&e, Json::Null, 11);
    assert!(matches!(striem::json::object_get(&f.metadata, "ocsf"), Some(Json::Bool(true))));
    assert!(matches!(striem::json::object_get(&f.metadata, "striem"), Some(Json::Bool(true))));
    assert!(matches!(striem::json::object_get(&f.metadata, "timestamp"), Some(Json::Str(s)) if s == "t"));
    assert_eq!(f.metadata.len(), 4);
}

#[test]
fn slow_subscriber_sees_lag_then_resumes() {
    let (tx, mut writer) = broadcast::channel::<Arc<Vec<u32>>>(256);
    let mut detection = tx.subscribe();
    let mut seen = Vec::new();
    for n in 0..300u32 {
        tx.send(Arc::new(vec![n])).unwrap();
        let b = writer.try_recv().unwrap();
        assert_eq!(step(Role::Writer, TaskState::Running, Input::Batch), (TaskState::Running, Action::Process));
        seen.push(b[0]);
    }
    assert_eq!(seen, (0..300).collect::<Vec<_>>());
    let lag = match detection.try_recv() {
        Err(TryRecvError::Lagged(n)) => n,
        other => panic!("expected a lag notification, got {:?}", other),
    };
    assert_eq!(lag, 44);
    assert_eq!(step(Role::Detection, TaskState::Running, Input::Lagged(lag)), (TaskState::Running, Action::NoteLag));
    let first = detection.try_recv().unwrap();
    assert_eq!(first[0], 44);
}

#[test]
fn sending_without_subscribers_is_harmless() {
    let (tx, rx) = broadcast::channel::<Arc<Vec<u32>>>(64);
    drop(rx);
    assert!(tx.send(Arc::new(vec![1])).is_err());
    let mut late = tx.subscribe();
    assert!(matches!(late.try_recv(), Err(TryRecvError::Empty)));
}

fn log(id: &[u8]) -> WireEvent {
    WireEvent::Log(LogRecord {
        value: None,
        fields: vec![("class_uid".to_string(), Json::Num(striem::json::Num::Int(3002)))],
        metadata: None,
        source_type: None,
        source_id: None,
        source_event_id: id.to_vec(),
    })
}

#[test]
fn only_log_events_are_accepted() {
    let ok = accept_batch(vec![log(&[]), log(&[7; 16])], &vec![5, 6]).unwrap();
    assert_eq!(ok.len(), 2);
    assert_eq!(ok[0].id, 5);
    assert_eq!(ok[1].id, u128::from_be_bytes([7; 16]));
    assert_eq!(accept_batch(vec![log(&[]), WireEvent::Metric, WireEvent::Missing], &vec![1, 2, 3]).unwrap_err(), DecodeFailed::NotALog);
    assert_eq!(accept_batch(vec![WireEvent::Missing, WireEvent::Trace], &vec![1, 2]).unwrap_err(), DecodeFailed::MissingEvent);
}
