use std::time::Duration;
use tracing_otlp::otlp::{otlp_event, otlp_span, Otlp};
use tracing_otlp::proto;
use tracing_otlp::proto::{AnyValue, KeyValue, Value};
use tracing_otlp::telemetry::Telemetry;
use tracing_otlp::time::{system_time_to_unix_nanos, Timestamp};
use tracing_otlp::trace::{Event, Level, Metadata, Span};
use tracing_otlp::visitor::{record_all, record_field, Field, Recorded, Visit, Visitor};
use tracing_otlp::{SpanId, TraceId};

fn meta(name: &'static str) -> Metadata {
    Metadata { name, target: "otlp", level: Level::Debug, module: None, file: None, line: None }
}

fn string_attribute(key: &str, value: &str) -> KeyValue {
    KeyValue {
        key: key.to_string(),
        value: Some(AnyValue { value: Some(Value::StringValue(value.to_string())) }),
    }
}

fn completed(parent_id: Option<SpanId>) -> Span<Visitor> {
    let mut values = Visitor::new();
    values.record_str("k", "v");
    Span {
        id: SpanId(0x0102030405060708),
        name: "work".to_string(),
        trace_id: TraceId(0x0123456789ABCDEF0123456789ABCDEF),
        parent_id,
        initialized_at: Timestamp(1_700_000_000_000_000_001),
        completed_at: Timestamp(1_700_000_000_000_000_009),
        meta: meta("work"),
        service_name: "svc",
        values,
    }
}

fn attached(at: i128) -> Event<Visitor> {
    let mut values = Visitor::new();
    values.record_i64("n", 3);
    Event {
        trace_id: Some(TraceId(0x0123456789ABCDEF0123456789ABCDEF)),
        parent_id: Some(SpanId(0x0102030405060708)),
        initialized_at: Timestamp(at),
        meta: meta("event"),
        service_name: "svc",
        values,
    }
}

fn same_attributes(a: &[KeyValue], b: &[KeyValue]) -> bool {
    format!("{:?}", a) == format!("{:?}", b)
}

#[test]
fn otlp_encoding_round_trip() {
    let (message, backwards) =
        otlp_span(completed(Some(SpanId(0x1112131415161718))), vec![attached(5), attached(6)]);
    assert_eq!(
        message.trace_id,
        vec![
            0xEF, 0xCD, 0xAB, 0x89, 0x67, 0x45, 0x23, 0x01, 0xEF, 0xCD, 0xAB, 0x89, 0x67, 0x45,
            0x23, 0x01
        ]
    );
    assert_eq!(message.span_id, vec![0x08, 0x07, 0x06, 0x05, 0x04, 0x03, 0x02, 0x01]);
    assert_eq!(message.parent_span_id, vec![0x18, 0x17, 0x16, 0x15, 0x14, 0x13, 0x12, 0x11]);
    assert_eq!(
        u128::from_le_bytes(message.trace_id.clone().try_into().unwrap()),
        0x0123456789ABCDEF0123456789ABCDEF
    );
    assert_eq!(
        u64::from_le_bytes(message.span_id.clone().try_into().unwrap()),
        0x0102030405060708
    );
    assert_eq!(
        u64::from_le_bytes(message.parent_span_id.clone().try_into().unwrap()),
        0x1112131415161718
    );
    assert!(!backwards);
    assert_eq!(message.name, "work");
    assert_eq!(message.trace_state, "");
    assert_eq!(message.kind, 0);
    assert_eq!(message.flags, 0);
    assert_eq!(message.start_time_unix_nano, 1_700_000_000_000_000_001);
    assert_eq!(message.end_time_unix_nano, 1_700_000_000_000_000_009);
    assert!(same_attributes(&message.attributes, &[string_attribute("k", "v")]));
    assert_eq!(message.dropped_attributes_count, 0);
    assert_eq!(message.dropped_events_count, 0);
    assert_eq!(message.dropped_links_count, 0);
    assert_eq!(message.links.len(), 0);
    assert!(message.status.is_none());
    assert_eq!(message.events.len(), 2);
    assert_eq!(message.events[0].time_unix_nano, 5);
    assert_eq!(message.events[1].time_unix_nano, 6);
    assert_eq!(message.events[0].name, "event");
    assert_eq!(message.events[0].dropped_attributes_count, 0);
    assert!(same_attributes(
        &message.events[0].attributes,
        &[KeyValue::new("n".to_string(), Value::IntValue(3))]
    ));
}

#[test]
fn a_span_without_parent_has_no_parent_bytes() {
    let (message, _) = otlp_span(completed(None), Vec::new());
    assert_eq!(message.parent_span_id, Vec::<u8>::new());
    assert_eq!(message.span_id.len(), 8);
    assert_eq!(message.trace_id.len(), 16);
    assert_eq!(message.events.len(), 0);
}

#[test]
fn extreme_identifiers() {
    let mut span = completed(Some(SpanId(u64::MAX)));
    span.id = SpanId(0);
    span.trace_id = TraceId(u128::MAX);
    let (message, _) = otlp_span(span, Vec::new());
    assert_eq!(message.span_id, vec![0u8; 8]);
    assert_eq!(message.trace_id, vec![0xFFu8; 16]);
    assert_eq!(message.parent_span_id, vec![0xFFu8; 8]);
}

#[test]
fn a_time_before_the_epoch_becomes_zero() {
    assert_eq!(system_time_to_unix_nanos(&Timestamp(-1)), 0);
    assert_eq!(system_time_to_unix_nanos(&Timestamp(i128::MIN)), 0);
    assert_eq!(system_time_to_unix_nanos(&Timestamp(0)), 0);
    assert_eq!(system_time_to_unix_nanos(&Timestamp(1)), 1);
    assert_eq!(system_time_to_unix_nanos(&Timestamp(u64::MAX as i128)), u64::MAX);
    assert_eq!(system_time_to_unix_nanos(&Timestamp(u64::MAX as i128 + 1)), 0);
    assert_eq!(system_time_to_unix_nanos(&Timestamp(u64::MAX as i128 + 8)), 7);
    assert!(Timestamp(-1).predates_epoch());
    assert!(!Timestamp(0).predates_epoch());
    assert_eq!(Timestamp(3).latest(Timestamp(4)), Timestamp(4));
    assert_eq!(Timestamp(5).latest(Timestamp(4)), Timestamp(5));

    let mut span = completed(None);
    span.initialized_at = Timestamp(-5);
    let (message, backwards) = otlp_span(span, vec![attached(7)]);
    assert!(backwards);
    assert_eq!(message.start_time_unix_nano, 0);
    assert_eq!(message.end_time_unix_nano, 1_700_000_000_000_000_009);

    let (message, backwards) = otlp_span(completed(None), vec![attached(7), attached(-7)]);
    assert!(backwards);
    assert_eq!(message.events[0].time_unix_nano, 7);
    assert_eq!(message.events[1].time_unix_nano, 0);
}

#[test]
fn an_event_becomes_a_span_event() {
    let message: proto::Event = otlp_event(attached(42));
    assert_eq!(message.time_unix_nano, 42);
    assert_eq!(message.name, "event");
    assert_eq!(message.dropped_attributes_count, 0);
    assert!(same_attributes(
        &message.attributes,
        &[KeyValue::new("n".to_string(), Value::IntValue(3))]
    ));
}

#[test]
fn visitor_keeps_order_and_duplicates() {
    let mut visitor = Visitor::new();
    assert_eq!(visitor.0.len(), 0);
    visitor.record_bool("flag", true);
    visitor.record_i64("n", -4);
    visitor.record_f64("x", 1.5f64.to_bits());
    visitor.record_str("s", "text");
    visitor.record_debug("d", "Some(1)");
    visitor.record_str("s", "again");
    let keys: Vec<&str> = visitor.0.iter().map(|kv| kv.key.as_str()).collect();
    assert_eq!(keys, vec!["flag", "n", "x", "s", "d", "s"]);
    let expected = vec![
        KeyValue::new("flag".to_string(), Value::BoolValue(true)),
        KeyValue::new("n".to_string(), Value::IntValue(-4)),
        KeyValue::new("x".to_string(), Value::DoubleValue(0x3FF8_0000_0000_0000)),
        KeyValue::new("s".to_string(), Value::StringValue("text".to_string())),
        KeyValue::new("d".to_string(), Value::StringValue("Some(1)".to_string())),
        KeyValue::new("s".to_string(), Value::StringValue("again".to_string())),
    ];
    assert!(same_attributes(&visitor.0, &expected));
}

#[test]
fn fields_are_recorded_by_kind() {
    let fields = vec![
        Field { name: "a".to_string(), value: Recorded::Bool(false) },
        Field { name: "b".to_string(), value: Recorded::I64(i64::MIN) },
        Field { name: "c".to_string(), value: Recorded::F64(0) },
        Field { name: "d".to_string(), value: Recorded::Str("x".to_string()) },
        Field { name: "e".to_string(), value: Recorded::Debug("[1, 2]".to_string()) },
    ];
    let mut all = Visitor::new();
    record_all(&mut all, &fields);
    let mut one_by_one = Visitor::new();
    for field in &fields {
        record_field(&mut one_by_one, field);
    }
    let expected = vec![
        KeyValue::new("a".to_string(), Value::BoolValue(false)),
        KeyValue::new("b".to_string(), Value::IntValue(i64::MIN)),
        KeyValue::new("c".to_string(), Value::DoubleValue(0)),
        KeyValue::new("d".to_string(), Value::StringValue("x".to_string())),
        KeyValue::new("e".to_string(), Value::StringValue("[1, 2]".to_string())),
    ];
    assert!(same_attributes(&all.0, &expected));
    assert!(same_attributes(&one_by_one.0, &expected));
    record_all(&mut all, &Vec::new());
    assert_eq!(all.0.len(), 5);
}

#[test]
fn key_value_new_sets_the_value() {
    let kv = KeyValue::new("service.name".to_string(), Value::from("svc".to_string()));
    assert_eq!(kv.key, "service.name");
    match kv.value {
        Some(AnyValue { value: Some(Value::StringValue(s)) }) => assert_eq!(s, "svc"),
        other => panic!("unexpected value {:?}", other),
    }
    assert!(matches!(Value::from(true), Value::BoolValue(true)));
    assert!(matches!(Value::from(-7i64), Value::IntValue(-7)));
    assert!(matches!(kv_value(KeyValue::new("k".to_string(), Value::IntValue(2))), Value::IntValue(2)));
    let copy = KeyValue::new("k".to_string(), Value::DoubleValue(9)).duplicate();
    assert_eq!(copy.key, "k");
    assert!(matches!(kv_value(copy), Value::DoubleValue(9)));
}

fn kv_value(kv: KeyValue) -> Value {
    kv.value.unwrap().value.unwrap()
}

#[test]
fn the_sink_hands_spans_to_the_worker() {
    let (sink, worker) =
        Otlp::new("http://127.0.0.1:4318", Duration::from_secs(1), Vec::new(), Vec::new()).unwrap();
    let visitor = sink.mk_visitor();
    assert_eq!(visitor.0.len(), 0);
    sink.report_event(attached(1));
    assert!(worker.rx.try_recv().is_err());
    sink.report_span(completed(Some(SpanId(2))), vec![attached(1)]);
    sink.report_span(completed(None), Vec::new());
    let first = worker.rx.try_recv().unwrap();
    assert_eq!(first.parent_span_id, vec![2, 0, 0, 0, 0, 0, 0, 0]);
    assert_eq!(first.events.len(), 1);
    let second = worker.rx.try_recv().unwrap();
    assert_eq!(second.parent_span_id.len(), 0);
    assert!(worker.rx.try_recv().is_err());
    // once the worker is gone the sink drops what it is handed
    drop(worker);
    sink.report_span(completed(None), Vec::new());
}
