use striem::config::{default_limit, ConfigError, Readiness, StorageConfig, StrIEMConfig};
use striem::convert::{convert_json, ConvError, Fault, Slot};
use striem::detection::{build_finding, correlation_uid, findings, raw_payload};
use striem::event::Event;
use striem::ingest::{event_from_log, log_from_event, log_of, LogRecord};
use striem::json::{Json, Num};
use striem::ocsf::{category, category_name, class_from_name, class_name};
use striem::schema::{ClassSchema, ColumnType, Field};
use striem::storage::{file_name, finish_action, route_for, Finish, Routes};
use striem::supervisor::{merge_patch, step, Action, Input, Role, SysKind, SysMessage, TaskState};
use striem::templates::{
    piece_key, source_pipeline, AwsCloudtrail, AwsCloudtrailConfig, Decoding, Okta, OktaConfig, Sink, SinkType, Source, SourceType, SqsConfig,
};

fn json_of(v: serde_json::Value) -> Json {
    match v {
        serde_json::Value::Null => Json::Null,
        serde_json::Value::Bool(b) => Json::Bool(b),
        serde_json::Value::Number(n) => Json::Num(match (n.as_i64(), n.as_u64()) {
            (Some(i), _) => Num::Int(i),
            (None, Some(u)) => Num::UInt(u),
            _ => Num::Float(n.as_f64().unwrap().to_bits()),
        }),
        serde_json::Value::String(s) => Json::Str(s),
        serde_json::Value::Array(a) => Json::Array(a.into_iter().map(json_of).collect()),
        serde_json::Value::Object(m) => Json::Object(m.into_iter().map(|(k, v)| (k, json_of(v))).collect()),
    }
}

fn uuid_text(id: u128) -> String {
    uuid::Uuid::from_u128(id).to_string()
}

fn json(text: &str) -> Json {
    json_of(serde_json::from_str(text).expect("test JSON"))
}

fn field(name: &str, nullable: bool, ty: ColumnType) -> Field {
    Field { name: name.to_string(), nullable, ty }
}

fn api_activity_schema() -> Vec<Field> {
    vec![
        field("activity_id", true, ColumnType::Int32),
        field("activity_name", true, ColumnType::Utf8),
        field("actor", true, ColumnType::Struct(vec![field("app_name", true, ColumnType::Utf8)])),
        field(
            "authorizations",
            true,
            ColumnType::List(Box::new(field(
                "list",
                true,
                ColumnType::Struct(vec![field("decision", true, ColumnType::Utf8), field("is_applied", true, ColumnType::Boolean)]),
            ))),
        ),
    ]
}

fn get<'a>(v: &'a Json, key: &str) -> Option<&'a Json> {
    v.get(key)
}

fn str_of(v: Option<&Json>) -> Option<&str> {
    match v {
        Some(Json::Str(s)) => Some(s.as_str()),
        _ => None,
    }
}

// Reads a row back into JSON, dropping the nulls of absent fields.
fn read_back(slots: &[Slot], fields: &[Field]) -> serde_json::Value {
    let mut pos = 0;
    let mut obj = serde_json::Map::new();
    for f in fields {
        if let Some(v) = read_cell(slots, &mut pos, f) {
            obj.insert(f.name.clone(), v);
        }
    }
    serde_json::Value::Object(obj)
}

fn read_cell(slots: &[Slot], pos: &mut usize, f: &Field) -> Option<serde_json::Value> {
    let s = &slots[*pos];
    *pos += 1;
    match s {
        Slot::Null | Slot::Nulled(_) => None,
        Slot::Int32(n) => Some(serde_json::Value::from(*n)),
        Slot::Int64(n) | Slot::Timestamp(n) => Some(serde_json::Value::from(*n)),
        Slot::Bool(b) => Some(serde_json::Value::from(*b)),
        Slot::Str(s) => Some(serde_json::Value::from(s.as_str())),
        Slot::Float(_) | Slot::Text(_) => panic!("not in these schemas"),
        Slot::Struct(_) => match &f.ty {
            ColumnType::Struct(children) => {
                let mut obj = serde_json::Map::new();
                for c in children {
                    if let Some(v) = read_cell(slots, pos, c) {
                        obj.insert(c.name.clone(), v);
                    }
                }
                Some(serde_json::Value::Object(obj))
            }
            _ => panic!("shape"),
        },
        Slot::List(n) => match &f.ty {
            ColumnType::List(child) => {
                let mut items = Vec::new();
                for _ in 0..*n {
                    items.push(read_cell(slots, pos, child).unwrap_or(serde_json::Value::Null));
                }
                Some(serde_json::Value::Array(items))
            }
            _ => panic!("shape"),
        },
    }
}

const API_ACTIVITY: &str = r#"{"activity_id":1,"activity_name":"test","actor":{"app_name":"test"},"authorizations":[{"decision":"test","is_applied":true}]}"#;

#[test]
fn parquet_test() {
    let input = json(API_ACTIVITY);
    let schema = api_activity_schema();
    let row = convert_json(&input, &schema).unwrap();
    let expected: serde_json::Value = serde_json::from_str(API_ACTIVITY).unwrap();
    assert_eq!(read_back(&row, &schema), expected);
}

#[test]
fn round_trip_drops_keys_outside_schema() {
    let input = json(r#"{"activity_id":7,"extra":{"x":1},"actor":{"app_name":"a","other":2}}"#);
    let schema = api_activity_schema();
    let row = convert_json(&input, &schema).unwrap();
    let expected: serde_json::Value = serde_json::from_str(r#"{"activity_id":7,"actor":{"app_name":"a"}}"#).unwrap();
    assert_eq!(read_back(&row, &schema), expected);
}

#[test]
fn int32_overflow_on_nullable_is_null_with_warning() {
    let input = json(r#"{"n":2147483648}"#);
    let schema = vec![field("n", true, ColumnType::Int32)];
    let row = convert_json(&input, &schema).unwrap();
    assert_eq!(row.len(), 1);
    assert!(matches!(row[0], Slot::Nulled(Fault::OutOfRange)));
}

#[test]
fn int32_overflow_on_required_fails() {
    let input = json(r#"{"n":2147483648}"#);
    let schema = vec![field("n", false, ColumnType::Int32)];
    match convert_json(&input, &schema) {
        Err(ConvError::Field { fault: Fault::OutOfRange, field }) => assert_eq!(field, "n"),
        other => panic!("unexpected {:?}", other),
    }
}

#[test]
fn int32_bounds_are_accepted() {
    let input = json(r#"{"lo":-2147483648,"hi":2147483647}"#);
    let schema = vec![field("lo", false, ColumnType::Int32), field("hi", false, ColumnType::Int32)];
    let row = convert_json(&input, &schema).unwrap();
    assert!(matches!(row[0], Slot::Int32(-2147483648)));
    assert!(matches!(row[1], Slot::Int32(2147483647)));
}

#[test]
fn empty_array_is_zero_length_list() {
    let input = json(r#"{"authorizations":[]}"#);
    let schema = api_activity_schema();
    let row = convert_json(&input, &schema).unwrap();
    assert!(matches!(row[3], Slot::List(0)));
    assert_eq!(row.len(), 4);
}

#[test]
fn absent_optional_struct_is_null() {
    let input = json(r#"{"activity_id":1}"#);
    let schema = api_activity_schema();
    let row = convert_json(&input, &schema).unwrap();
    assert!(matches!(row[0], Slot::Int32(1)));
    assert!(matches!(row[1], Slot::Null));
    assert!(matches!(row[2], Slot::Null));
    assert!(matches!(row[3], Slot::Null));
}

#[test]
fn missing_required_field_fails() {
    let input = json(r#"{}"#);
    let schema = vec![field("time", false, ColumnType::TimestampMs)];
    assert!(matches!(convert_json(&input, &schema), Err(ConvError::Field { fault: Fault::Missing, .. })));
}

#[test]
fn top_level_must_be_object() {
    let input = json(r#"[1,2]"#);
    let schema = vec![field("time", true, ColumnType::TimestampMs)];
    assert!(matches!(convert_json(&input, &schema), Err(ConvError::TopLevelNotObject)));
}

#[test]
fn timestamp_accepts_integer_strings() {
    let input = json(r#"{"a":"1700000000000","b":"+5","c":"soon","d":1700000000001}"#);
    let schema = vec![
        field("a", true, ColumnType::TimestampMs),
        field("b", true, ColumnType::TimestampMs),
        field("c", true, ColumnType::TimestampMs),
        field("d", true, ColumnType::TimestampMs),
    ];
    let row = convert_json(&input, &schema).unwrap();
    assert!(matches!(row[0], Slot::Timestamp(1700000000000)));
    assert!(matches!(row[1], Slot::Timestamp(5)));
    assert!(matches!(row[2], Slot::Nulled(Fault::WrongType)));
    assert!(matches!(row[3], Slot::Timestamp(1700000000001)));
}

#[test]
fn strings_take_canonical_text_of_other_values() {
    let input = json(r#"{"s":{"k":[1,true]},"t":null,"u":"plain"}"#);
    let schema = vec![field("s", true, ColumnType::Utf8), field("t", true, ColumnType::Utf8), field("u", false, ColumnType::Utf8)];
    let row = convert_json(&input, &schema).unwrap();
    assert!(matches!(row[0], Slot::Text(Json::Object(_))));
    assert!(matches!(row[1], Slot::Nulled(Fault::WrongType)));
    assert!(matches!(row[2], Slot::Str(s) if s == "plain"));
}

#[test]
fn floats_and_bools_coerce() {
    let input = json(r#"{"f":3,"g":1.5,"b":"yes","c":false}"#);
    let schema = vec![
        field("f", true, ColumnType::Float64),
        field("g", true, ColumnType::Float64),
        field("b", true, ColumnType::Boolean),
        field("c", true, ColumnType::Boolean),
    ];
    let row = convert_json(&input, &schema).unwrap();
    assert!(matches!(row[0], Slot::Float(Num::Int(3))));
    assert!(matches!(row[1], Slot::Float(Num::Float(b)) if b == 1.5f64.to_bits()));
    assert!(matches!(row[2], Slot::Nulled(Fault::WrongType)));
    assert!(matches!(row[3], Slot::Bool(false)));
}

#[test]
fn struct_field_needs_object() {
    let input = json(r#"{"actor":"someone","authorizations":null}"#);
    let schema = api_activity_schema();
    let row = convert_json(&input, &schema).unwrap();
    assert!(matches!(row[2], Slot::Nulled(Fault::NotAnObject)));
    assert!(matches!(row[3], Slot::Nulled(Fault::NotAnArray)));
    assert_eq!(row.len(), 4);
    let required = vec![field("actor", false, ColumnType::Struct(vec![field("app_name", true, ColumnType::Utf8)]))];
    assert!(matches!(convert_json(&input, &required), Err(ConvError::Field { fault: Fault::NotAnObject, .. })));
}

#[test]
fn finding_product_has_exactly_two_members() {
    let e = event(1, r#"{}"#, r#"{}"#);
    let f = build_finding(&e, descriptor(), 2);
    match get(get(&f.data, "metadata").unwrap(), "product") {
        Some(Json::Object(m)) => assert_eq!(m.len(), 2),
        other => panic!("unexpected {:?}", other),
    }
}

#[test]
fn class_table_and_categories() {
    assert_eq!(class_from_name("authentication"), Some(3002));
    assert_eq!(class_name(3002), Some("authentication"));
    assert_eq!(category(3002), 3);
    assert_eq!(category_name(3), Some("iam"));
    assert_eq!(category(2004), 2);
    assert_eq!(category_name(2), Some("findings"));
    assert_eq!(class_from_name("no_such_class"), None);
    assert_eq!(class_name(999999), None);
    assert_eq!(category(201004), 1);
}

fn schema_named(name: &str) -> ClassSchema {
    ClassSchema { fields: vec![field("class_uid", false, ColumnType::Int32)], description: name.to_string(), schema_file: format!("{}.parquet", name) }
}

#[test]
fn route_and_persist_path() {
    let mut routes = Routes::new();
    let route = route_for("authentication", schema_named("authentication")).unwrap();
    assert_eq!(route.category, "iam");
    assert_eq!(route.class, "authentication");
    routes.add(route);
    let event = json(r#"{"class_uid":3002,"user":"x"}"#);
    let i = routes.route(&event).unwrap();
    assert_eq!(routes.routes[i].class_uid, 3002);
    let row = convert_json(&event, &routes.routes[i].schema.fields).unwrap();
    assert!(matches!(row[0], Slot::Int32(3002)));
}

#[test]
fn unknown_class_is_dropped() {
    let mut routes = Routes::new();
    routes.add(route_for("authentication", schema_named("authentication")).unwrap());
    assert!(routes.route(&json(r#"{"class_uid":999999}"#)).is_err());
    assert!(routes.route(&json(r#"{"class_uid":"3002"}"#)).is_err());
    assert!(routes.route(&json(r#"{"other":1}"#)).is_err());
    assert!(routes.route(&json(r#"{"class_uid":4294970298}"#)).is_err());
}

#[test]
fn unknown_schema_name_is_refused() {
    assert!(route_for("not_a_class", schema_named("not_a_class")).is_err());
}

#[test]
fn adding_a_class_twice_keeps_one_route() {
    let mut routes = Routes::new();
    routes.add(route_for("authentication", schema_named("authentication")).unwrap());
    routes.add(route_for("authentication", schema_named("authentication")).unwrap());
    routes.add(route_for("api_activity", schema_named("api_activity")).unwrap());
    assert_eq!(routes.routes.len(), 2);
}

#[test]
fn files_without_rows_are_discarded() {
    assert_eq!(finish_action(&vec![]), Finish::Discard);
    assert_eq!(finish_action(&vec![0, 5]), Finish::Discard);
    assert_eq!(finish_action(&vec![3]), Finish::Publish);
}

#[test]
fn uuid_text_and_file_name() {
    let id: u128 = 0x0190_1234_5678_7abc_8def_0123_4567_89ab;
    assert_eq!(file_name(id), "01901234-5678-7abc-8def-0123456789ab.parquet");
    let e = Event { id, data: Json::Null, metadata: vec![] };
    assert_eq!(correlation_uid(&e), "01901234-5678-7abc-8def-0123456789ab");
}

fn event(id: u128, data: &str, metadata: &str) -> Event {
    match json(metadata) {
        Json::Object(m) => Event { id, data: json(data), metadata: m },
        _ => panic!("metadata must be an object"),
    }
}

fn descriptor() -> Json {
    json(r#"{"class_uid":2004,"metadata":{"version":"1.3.0","product":{"vendor_name":"sigmars","name":"sigmars"}},"finding_info":{"title":"rule"}}"#)
}

#[test]
fn detection_correlation() {
    let id: u128 = 0x0190_0000_0000_7000_8000_0000_0000_0001;
    let e = event(id, r#"{"class_uid":6003}"#, r#"{"logsource":{"product":"aws","service":"cloudtrail"},"source_id":"s1"}"#);
    let f = build_finding(&e, descriptor(), 77);
    assert_eq!(f.id, 77);
    let meta = get(&f.data, "metadata").unwrap();
    assert_eq!(str_of(get(meta, "uid")), Some(uuid_text(id).as_str()));
    assert_eq!(str_of(get(meta, "correlation_uid")), Some(uuid_text(id).as_str()));
    assert_eq!(str_of(get(meta, "version")), Some("1.3.0"));
    let product = get(meta, "product").unwrap();
    assert_eq!(str_of(get(product, "vendor_name")), Some("StrIEM"));
    assert_eq!(str_of(get(product, "product_name")), Some("StrIEM"));
    assert!(get(product, "name").is_none());
    assert!(matches!(get(&f.data, "class_uid"), Some(Json::Num(Num::Int(2004)))));
    assert!(matches!(striem::json::object_get(&f.metadata, "ocsf"), Some(Json::Bool(true))));
    assert!(matches!(striem::json::object_get(&f.metadata, "striem"), Some(Json::Bool(true))));
    assert_eq!(str_of(striem::json::object_get(&f.metadata, "source_id")), Some("s1"));
    assert!(striem::json::object_get(&f.metadata, "logsource").is_some());
}

#[test]
fn correlation_prefers_payload_uid() {
    let e = event(5, r#"{"metadata":{"uid":"upstream-1"}}"#, r#"{"ocsf":false}"#);
    assert_eq!(correlation_uid(&e), "upstream-1");
    let f = build_finding(&e, descriptor(), 6);
    let meta = get(&f.data, "metadata").unwrap();
    assert_eq!(str_of(get(meta, "correlation_uid")), Some("upstream-1"));
    assert_eq!(str_of(get(meta, "uid")), Some(uuid_text(5).as_str()));
    assert!(matches!(striem::json::object_get(&f.metadata, "ocsf"), Some(Json::Bool(true))));
}

#[test]
fn raw_data_preference() {
    let e = event(1, r#"{"raw_data":"{\"EventName\":\"ConsoleLogin\"}","class_uid":3002}"#, r#"{"ocsf":true}"#);
    let raw = raw_payload(&e).expect("raw payload");
    assert_eq!(str_of(get(&raw, "EventName")), Some("ConsoleLogin"));
    let plain = event(1, r#"{"raw_data":"{\"EventName\":\"ConsoleLogin\"}"}"#, r#"{}"#);
    assert!(raw_payload(&plain).is_none());
    let broken = event(1, r#"{"raw_data":"not json"}"#, r#"{"ocsf":true}"#);
    assert!(raw_payload(&broken).is_none());
}

#[test]
fn unresolved_rules_are_skipped() {
    let e = event(9, r#"{}"#, r#"{}"#);
    let out = findings(&e, vec![Some(descriptor()), None, Some(Json::Null)], &vec![1, 2, 3]);
    assert_eq!(out.len(), 2);
    assert_eq!(out[0].id, 1);
    assert_eq!(out[1].id, 3);
}

#[test]
fn log_records_become_events() {
    let rec = LogRecord {
        value: Some(Json::Str(r#"{"class_uid":3002}"#.to_string())),
        fields: vec![],
        metadata: Some(json(r#"{"vector":{"ingest_timestamp":"2024-01-01T00:00:00Z"},"k":1}"#)),
        source_type: Some("okta".to_string()),
        source_id: None,
        source_event_id: (1u128 << 100).to_be_bytes().to_vec(),
    };
    let e = event_from_log(rec, 42);
    assert_eq!(e.id, 1u128 << 100);
    assert!(matches!(get(&e.data, "class_uid"), Some(Json::Num(Num::Int(3002)))));
    assert!(striem::json::object_get(&e.metadata, "vector").is_none());
    assert_eq!(str_of(striem::json::object_get(&e.metadata, "timestamp")), Some("2024-01-01T00:00:00Z"));
    assert_eq!(str_of(striem::json::object_get(&e.metadata, "source_type")), Some("okta"));
    assert_eq!(str_of(striem::json::object_get(&e.metadata, "correlation_uid")), Some(uuid_text(1u128 << 100).as_str()));
    assert!(matches!(striem::json::object_get(&e.metadata, "k"), Some(Json::Num(Num::Int(1)))));
}

#[test]
fn logs_without_id_get_fresh_one_and_keep_text() {
    let rec = LogRecord {
        value: Some(Json::Str("plain text".to_string())),
        fields: vec![],
        metadata: None,
        source_type: None,
        source_id: None,
        source_event_id: vec![1, 2, 3],
    };
    let e = event_from_log(rec, 42);
    assert_eq!(e.id, 42);
    assert!(matches!(&e.data, Json::Str(s) if s == "plain text"));
    assert_eq!(str_of(striem::json::object_get(&e.metadata, "correlation_uid")), Some(uuid_text(42).as_str()));
}

#[test]
fn events_forward_as_logs() {
    let e = event(0x1234, r#"{"a":1}"#, r#"{"m":"x"}"#);
    let rec = log_of(&e);
    assert_eq!(rec.source_event_id, 0x1234u128.to_be_bytes().to_vec());
    assert_eq!(rec.fields.len(), 1);
    assert_eq!(rec.fields[0].0, "a");
    let back = event_from_log(rec, 0);
    assert_eq!(back.id, 0x1234);
}

#[test]
fn shutdown_twice_is_shutdown_once() {
    for role in [Role::Detection, Role::Writer, Role::Forwarder, Role::ConfigWatcher] {
        let (s1, a1) = step(role, TaskState::Running, Input::Sys(SysKind::Shutdown));
        assert_eq!((s1, a1), (TaskState::Stopped, Action::Stop));
        let (s2, a2) = step(role, s1, Input::Sys(SysKind::Shutdown));
        assert_eq!((s2, a2), (TaskState::Stopped, Action::Ignore));
    }
    assert_eq!(SysMessage::Shutdown.kind(), SysKind::Shutdown);
}

#[test]
fn lag_is_noted_and_receiving_goes_on() {
    assert_eq!(step(Role::Detection, TaskState::Running, Input::Lagged(44)), (TaskState::Running, Action::NoteLag));
    assert_eq!(step(Role::Writer, TaskState::Running, Input::Batch), (TaskState::Running, Action::Process));
    assert_eq!(step(Role::Writer, TaskState::Running, Input::Sys(SysKind::Reload)), (TaskState::Running, Action::ReloadBase));
    assert_eq!(step(Role::Detection, TaskState::Running, Input::Sys(SysKind::Reload)), (TaskState::Running, Action::Ignore));
    assert_eq!(step(Role::ConfigWatcher, TaskState::Running, Input::Sys(SysKind::Update)), (TaskState::Running, Action::ApplyUpdate));
    assert_eq!(step(Role::Forwarder, TaskState::Running, Input::BusClosed), (TaskState::Stopped, Action::Stop));
}

#[test]
fn update_patch_is_merged() {
    let mut config = match json(r#"{"storage":{"path":"a"},"fqdn":"x"}"#) {
        Json::Object(m) => m,
        _ => unreachable!(),
    };
    let patch = match json(r#"{"storage":{"path":"b"},"api":{"enabled":true}}"#) {
        Json::Object(m) => m,
        _ => unreachable!(),
    };
    merge_patch(&mut config, patch);
    assert_eq!(config.len(), 3);
    let storage = striem::json::object_get(&config, "storage").unwrap();
    assert_eq!(str_of(get(storage, "path")), Some("b"));
    assert_eq!(str_of(striem::json::object_get(&config, "fqdn")), Some("x"));
    assert!(striem::json::object_get(&config, "api").is_some());
}

#[test]
fn config_check() {
    let base = StrIEMConfig { db: None, detections: None, output: None, storage: None, api_enabled: None, fqdn: None };
    assert_eq!(StrIEMConfig::check(&base), Err(ConfigError::NothingConfigured));
    let api_only = StrIEMConfig { api_enabled: Some(true), ..base };
    assert_eq!(StrIEMConfig::check(&api_only), Ok(Readiness::ApiOnly));
    let stored = StrIEMConfig {
        storage: Some(StorageConfig { schema: "ocsf/schema".into(), path: "data/ocsf".into() }),
        api_enabled: Some(false),
        ..api_only
    };
    assert_eq!(StrIEMConfig::check(&stored), Ok(Readiness::Sinks));
    assert_eq!(default_limit(), 10);
}

#[test]
fn source_pipeline_ids() {
    let src = AwsCloudtrail {
        id: "abc".into(),
        config: AwsCloudtrailConfig { auth: None, sqs: SqsConfig { queue_url: "https://q".into() }, region: None, decoding: Decoding::Json },
    };
    let (transforms, last) = src.preprocess_transforms().unwrap();
    assert_eq!(last, "pre-aws_cloudtrail_abc");
    assert_eq!(transforms[0].1.inputs, vec!["source-aws_cloudtrail_abc".to_string()]);
    assert_eq!(src.name(), "https://q");
    assert_eq!(src.logsource_product(), Some("aws".to_string()));
    assert_eq!(piece_key("ocsf", SourceType::Okta, "z"), "ocsf-okta_z");
    let sink = Sink { id: "s".into(), config: SinkType::Blackhole { inputs: vec![] } };
    assert_eq!(sink.key(), "sink-s");
}

#[test]
fn file_names_sort_by_id() {
    let ids: [u128; 4] = [0x0190_0000_0000_7000_8000_0000_0000_0009, 0x0190_0000_0000_7000_8000_0000_0000_000a, 0x0190_0000_0001_7000_8000_0000_0000_0000, 0x0191_0000_0000_7000_8000_0000_0000_0000];
    let names: Vec<String> = ids.iter().map(|i| file_name(*i)).collect();
    let mut sorted = names.clone();
    sorted.sort();
    assert_eq!(names, sorted);
}

#[test]
fn source_pipeline_tags_and_normalizes() {
    let src = AwsCloudtrail {
        id: "abc".into(),
        config: AwsCloudtrailConfig { auth: None, sqs: SqsConfig { queue_url: "https://q".into() }, region: None, decoding: Decoding::Json },
    };
    let p = source_pipeline(
        src.sourcetype(),
        &src.id(),
        src.logsource_vendor(),
        src.logsource_product(),
        src.logsource_service(),
        src.preprocess_transforms(),
        None,
    );
    assert_eq!(p.source_key, "source-aws_cloudtrail_abc");
    assert_eq!(p.transforms.len(), 3);
    assert_eq!(p.transforms[0].0, "pre-aws_cloudtrail_abc");
    assert_eq!(p.transforms[1].0, "logsource-aws_cloudtrail_abc");
    assert_eq!(p.transforms[1].1.inputs, vec!["pre-aws_cloudtrail_abc".to_string()]);
    assert_eq!(
        p.transforms[1].1.source.as_deref(),
        Some("%source_id = \"source-aws_cloudtrail_abc\"\n%sigma = {\"logsource\":{\"product\":\"aws\",\"service\":\"cloudtrail\"}}\n")
    );
    assert_eq!(p.transforms[2].0, "ocsf-aws_cloudtrail_abc");
    assert_eq!(p.transforms[2].1.file.as_deref(), Some("${STRIEM_REMAPS}/aws_cloudtrail/remap.vrl"));
}

#[test]
fn okta_pipeline_starts_at_the_source() {
    let src = Okta {
        id: "o1".into(),
        config: OktaConfig { domain: "corp.okta.com".into(), token: "SECRET-REDACTED".into(), scrape_interval_secs: None, scrape_timeout_secs: None, since: None },
    };
    let p = source_pipeline(
        src.sourcetype(),
        &src.id(),
        src.logsource_vendor(),
        src.logsource_product(),
        src.logsource_service(),
        src.preprocess_transforms(),
        Some("/etc/remaps".into()),
    );
    assert_eq!(p.transforms.len(), 2);
    assert_eq!(p.transforms[0].1.inputs, vec!["source-okta_o1".to_string()]);
    assert!(p.transforms[0].1.source.as_deref().unwrap().contains(r#"{"logsource":{"product":"audit","vendor":"okta"}}"#));
    assert_eq!(p.transforms[1].1.file.as_deref(), Some("/etc/remaps/okta/remap.vrl"));
    assert_eq!(src.name(), "corp.okta.com");
}

#[test]
fn owned_events_forward_with_source_fields() {
    let e = event(
        0x77,
        r#"{"a":1}"#,
        r#"{"source_type":"okta","source_id":"s9","timestamp":"2024-05-01T00:00:00Z","vector":{"x":1},"k":true}"#,
    );
    let rec = log_from_event(e);
    assert_eq!(rec.source_type.as_deref(), Some("okta"));
    assert_eq!(rec.source_id.as_deref(), Some("s9"));
    assert_eq!(rec.source_event_id, 0x77u128.to_be_bytes().to_vec());
    assert_eq!(rec.fields.len(), 1);
    let meta = match &rec.metadata {
        Some(Json::Object(m)) => m,
        other => panic!("unexpected {:?}", other),
    };
    assert!(striem::json::object_get(meta, "source_type").is_none());
    assert_eq!(str_of(striem::json::object_get(meta, "correlation_uid")), Some(uuid_text(0x77).as_str()));
    let vector = striem::json::object_get(meta, "vector").unwrap();
    assert_eq!(str_of(get(vector, "ingest_timestamp")), Some("2024-05-01T00:00:00Z"));
    assert!(get(vector, "x").is_some());
    assert!(matches!(striem::json::object_get(meta, "k"), Some(Json::Bool(true))));
}
