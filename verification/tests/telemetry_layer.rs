use std::sync::{Arc, Mutex};
use tracing_otlp::telemetry::{BlackholeTelemetry, BlackholeVisitor, Telemetry};
use tracing_otlp::telemetry_layer::{
    close_span, emit_event, event_parent, open_span, Emitted, EventOutcome, EventScope, Scratch,
    TelemetryLayer, TraceCtx,
};
use tracing_otlp::time::Timestamp;
use tracing_otlp::trace::{
    current_dist_trace_ctx, register_dist_tracing_root, Ambient, Event, Level, Metadata, Span,
    TraceCtxError,
};
use tracing_otlp::visitor::{Field, Recorded};
use tracing_otlp::{SpanId, TraceId};

type Spans = Arc<Mutex<Vec<Span<BlackholeVisitor>>>>;
type Events = Arc<Mutex<Vec<Event<BlackholeVisitor>>>>;

/// Mock telemetry capability: keeps what it is handed.
struct TestTelemetry {
    spans: Spans,
    events: Events,
    attached: Events,
}

impl TestTelemetry {
    fn new(spans: Spans, events: Events, attached: Events) -> Self {
        TestTelemetry { spans, events, attached }
    }
}

impl Telemetry for TestTelemetry {
    type Visitor = BlackholeVisitor;

    fn mk_visitor(&self) -> BlackholeVisitor {
        BlackholeVisitor
    }

    fn report_span(&self, span: Span<BlackholeVisitor>, events: Vec<Event<BlackholeVisitor>>) {
        // succeed or die. failure is unrecoverable (mutex poisoned)
        let mut spans = self.spans.lock().unwrap();
        spans.push(span);
        self.attached.lock().unwrap().extend(events);
    }

    fn report_event(&self, event: Event<BlackholeVisitor>) {
        // succeed or die. failure is unrecoverable (mutex poisoned)
        let mut events = self.events.lock().unwrap();
        events.push(event);
    }
}

fn explicit_trace_id() -> TraceId {
    TraceId(135)
}

fn explicit_parent_span_id() -> SpanId {
    SpanId(246)
}

fn meta(name: &'static str) -> Metadata {
    Metadata {
        name,
        target: "telemetry_layer",
        level: Level::Info,
        module: Some("telemetry_layer"),
        file: Some("tests/telemetry_layer.rs"),
        line: Some(1),
    }
}

fn event_fields() -> Vec<Field> {
    let use_of_reserved_word = "duration-value";
    vec![
        Field {
            name: "duration_ms".to_string(),
            value: Recorded::Str(use_of_reserved_word.to_string()),
        },
        Field { name: "foo".to_string(), value: Recorded::Str("bar".to_string()) },
    ]
}

fn argument(name: &str, rendered: String) -> Vec<Field> {
    vec![Field { name: name.to_string(), value: Recorded::Debug(rendered) }]
}

struct Clock(i128);

impl Clock {
    fn advance(&mut self, millis: i128) -> Timestamp {
        self.0 += millis * 1_000_000;
        Timestamp(self.0)
    }
}

struct Scenario {
    spans: Spans,
    events: Events,
    attached: Events,
}

fn with_test_scenario_runner<F>(f: F) -> Scenario
where
    F: Fn(&TelemetryLayer<TestTelemetry, fn(u64) -> SpanId>),
{
    let spans = Arc::new(Mutex::new(Vec::new()));
    let events = Arc::new(Mutex::new(Vec::new()));
    let attached = Arc::new(Mutex::new(Vec::new()));
    let cap: TestTelemetry = TestTelemetry::new(spans.clone(), events.clone(), attached.clone());
    let promote: fn(u64) -> SpanId = |x| SpanId(x);
    let layer = TelemetryLayer::new("test_svc_name", cap, promote);

    f(&layer);

    {
        let spans = spans.lock().unwrap();
        let events = events.lock().unwrap();

        // root span is exited (and reported) last
        let root_span = &spans[3];
        let child_spans = &spans[0..3];

        let expected_trace_id = explicit_trace_id();

        assert_eq!(root_span.parent_id, Some(explicit_parent_span_id()));
        assert_eq!(root_span.trace_id, expected_trace_id);

        for (span, event) in child_spans.iter().zip(events.iter()) {
            // confirm parent and trace ids are as expected
            assert_eq!(span.parent_id, Some(root_span.id.clone()));
            assert_eq!(event.parent_id, Some(span.id.clone()));
            assert_eq!(span.trace_id, explicit_trace_id());
            assert_eq!(event.trace_id, Some(explicit_trace_id()));
        }
    }
    Scenario { spans, events, attached }
}

fn check_children(scenario: &Scenario) {
    let spans = scenario.spans.lock().unwrap();
    let attached = scenario.attached.lock().unwrap();
    assert_eq!(spans.len(), 4);
    assert_eq!(scenario.events.lock().unwrap().len(), 0);
    assert_eq!(attached.len(), 3);
    let root_span = &spans[3];
    assert_eq!(root_span.name, "f");
    assert_eq!(root_span.service_name, "test_svc_name");
    for (span, event) in spans[0..3].iter().zip(attached.iter()) {
        assert_eq!(span.name, "g");
        assert_eq!(span.parent_id, Some(root_span.id));
        assert_eq!(span.trace_id, explicit_trace_id());
        assert_eq!(event.parent_id, Some(span.id));
        assert_eq!(event.trace_id, Some(explicit_trace_id()));
        assert!(span.initialized_at <= span.completed_at);
    }
}

#[test]
fn test_instrument() {
    let scenario = with_test_scenario_runner(|layer| {
        let mut clock = Clock(1_700_000_000_000_000_000);
        let ns: Vec<u64> = vec![1, 2, 3];
        let mut f = layer.on_new_span(None, 1, &argument("ns", format!("{:?}", ns)), clock.advance(1));
        register_dist_tracing_root(
            Ambient::Span(&mut f),
            explicit_trace_id(),
            Some(explicit_parent_span_id()),
        )
        .unwrap();
        for n in ns {
            let mut g = layer.on_new_span(
                Some(&f),
                1 + n,
                &argument("_s", format!("{:?}", format!("{}", n))),
                clock.advance(1),
            );
            let parent = event_parent(None, false, Some(1 + n));
            assert_eq!(parent, Some(1 + n));
            let outcome = layer.on_event(
                EventScope::Span(&mut g),
                &event_fields(),
                meta("event"),
                clock.advance(1),
            );
            assert_eq!(outcome, EventOutcome::Attached);

            assert_eq!(
                current_dist_trace_ctx(Ambient::Span(Some(&g))).map(|x| x.0).unwrap(),
                explicit_trace_id(),
            );
            assert!(layer.on_close(g, Some(f.span_id), meta("g"), clock.advance(1)));
        }
        assert!(layer.on_close(f, None, meta("f"), clock.advance(1)));
    });
    check_children(&scenario);
}

// the spans of `g` stay open across each other (as when each is entered
// and left several times around a delay) with test scenario
#[test]
fn test_async_instrument() {
    let scenario = with_test_scenario_runner(|layer| {
        let mut clock = Clock(1_700_000_000_000_000_000);
        let ns: Vec<u64> = vec![1, 2, 3];
        let mut f = layer.on_new_span(None, 1, &argument("ns", format!("{:?}", ns)), clock.advance(1));
        register_dist_tracing_root(
            Ambient::Span(&mut f),
            explicit_trace_id(),
            Some(explicit_parent_span_id()),
        )
        .unwrap();
        let mut live: Vec<Scratch<BlackholeVisitor>> = Vec::new();
        for n in ns {
            live.push(layer.on_new_span(
                Some(&f),
                1 + n,
                &argument("s", format!("{:?}", format!("{}", n))),
                clock.advance(1),
            ));
        }
        // delay to force multiple span entry
        clock.advance(100);
        for g in live.iter_mut().rev() {
            let outcome =
                layer.on_event(EventScope::Span(g), &event_fields(), meta("event"), clock.advance(1));
            assert_eq!(outcome, EventOutcome::Attached);
            assert_eq!(
                current_dist_trace_ctx(Ambient::Span(Some(&*g))).map(|x| x.0).unwrap(),
                explicit_trace_id(),
            );
        }
        for g in live {
            assert!(layer.on_close(g, Some(f.span_id), meta("g"), clock.advance(1)));
        }
        assert!(layer.on_close(f, None, meta("f"), clock.advance(1)));
    });
    check_children(&scenario);
}

fn recording_layer() -> (TelemetryLayer<TestTelemetry, fn(u64) -> SpanId>, Scenario) {
    let spans = Arc::new(Mutex::new(Vec::new()));
    let events = Arc::new(Mutex::new(Vec::new()));
    let attached = Arc::new(Mutex::new(Vec::new()));
    let cap = TestTelemetry::new(spans.clone(), events.clone(), attached.clone());
    let promote: fn(u64) -> SpanId = |x| SpanId(x + 1000);
    (TelemetryLayer::new("svc", cap, promote), Scenario { spans, events, attached })
}

#[test]
fn standalone_event_is_reported_at_once() {
    let (layer, seen) = recording_layer();
    let fields = vec![Field { name: "message".to_string(), value: Recorded::Str("hello".to_string()) }];
    let outcome = layer.on_event(EventScope::Root, &fields, meta("event"), Timestamp(5));
    assert_eq!(outcome, EventOutcome::Reported);
    let events = seen.events.lock().unwrap();
    assert_eq!(events.len(), 1);
    assert_eq!(events[0].trace_id, None);
    assert_eq!(events[0].parent_id, None);
    assert_eq!(events[0].initialized_at, Timestamp(5));
    assert_eq!(events[0].service_name, "svc");
    assert_eq!(events[0].meta, meta("event"));
    assert_eq!(seen.spans.lock().unwrap().len(), 0);
}

#[test]
fn untraced_subtree_is_dropped() {
    let (layer, seen) = recording_layer();
    let a = layer.on_new_span(None, 1, &Vec::new(), Timestamp(1));
    let mut b = layer.on_new_span(Some(&a), 2, &Vec::new(), Timestamp(2));
    assert_eq!(a.trace_ctx, None);
    assert_eq!(b.trace_ctx, None);
    let outcome = layer.on_event(EventScope::Span(&mut b), &event_fields(), meta("event"), Timestamp(3));
    assert_eq!(outcome, EventOutcome::Dropped);
    assert_eq!(b.events.len(), 0);
    assert!(!layer.on_close(b, Some(a.span_id), meta("b"), Timestamp(4)));
    assert!(!layer.on_close(a, None, meta("a"), Timestamp(5)));
    assert_eq!(seen.spans.lock().unwrap().len(), 0);
    assert_eq!(seen.events.lock().unwrap().len(), 0);
    assert_eq!(seen.attached.lock().unwrap().len(), 0);
}

#[test]
fn event_under_a_span_that_is_gone_is_dropped() {
    let (layer, seen) = recording_layer();
    let outcome = layer.on_event(EventScope::Unknown, &event_fields(), meta("event"), Timestamp(3));
    assert_eq!(outcome, EventOutcome::Dropped);
    assert_eq!(seen.events.lock().unwrap().len(), 0);
}

#[test]
fn current_context_without_root_fails() {
    let (layer, _seen) = recording_layer();
    let a = layer.on_new_span(None, 1, &Vec::new(), Timestamp(1));
    let b = layer.on_new_span(Some(&a), 2, &Vec::new(), Timestamp(2));
    assert_eq!(
        current_dist_trace_ctx(Ambient::Span(Some(&b))),
        Err(TraceCtxError::NoParentNodeHasTraceCtx)
    );
    assert_eq!(
        current_dist_trace_ctx::<BlackholeVisitor>(Ambient::Span(None)),
        Err(TraceCtxError::NoParentNodeHasTraceCtx)
    );
}

#[test]
fn context_functions_fail_outside_a_span() {
    assert_eq!(
        current_dist_trace_ctx::<BlackholeVisitor>(Ambient::NoEnabledSpan),
        Err(TraceCtxError::NoEnabledSpan)
    );
    assert_eq!(
        current_dist_trace_ctx::<BlackholeVisitor>(Ambient::ForeignSubscriber),
        Err(TraceCtxError::RegistrySubscriberNotRegistered)
    );
    assert_eq!(
        register_dist_tracing_root::<BlackholeVisitor>(Ambient::NoEnabledSpan, TraceId(1), None),
        Err(TraceCtxError::NoEnabledSpan)
    );
    assert_eq!(
        register_dist_tracing_root::<BlackholeVisitor>(
            Ambient::ForeignSubscriber,
            TraceId(1),
            Some(SpanId(2))
        ),
        Err(TraceCtxError::RegistrySubscriberNotRegistered)
    );
}

#[test]
fn error_messages() {
    assert_eq!(
        TraceCtxError::TelemetryLayerNotRegistered.message(),
        "`TelemetryLayer` is not a registered subscriber of the current Span"
    );
    assert_eq!(
        TraceCtxError::RegistrySubscriberNotRegistered.message(),
        "no `tracing_subscriber::Registry` is a registered subscriber of the current Span"
    );
    assert_eq!(
        TraceCtxError::NoEnabledSpan.message(),
        "the span is not enabled with an associated subscriber"
    );
    assert_eq!(
        TraceCtxError::NoParentNodeHasTraceCtx.message(),
        "unable to evaluate trace context; assert `register_dist_tracing_root` is called in some parent span"
    );
}

#[test]
fn current_context_names_the_current_span() {
    let (layer, _seen) = recording_layer();
    let mut root = layer.on_new_span(None, 7, &Vec::new(), Timestamp(1));
    assert_eq!(register_dist_tracing_root(Ambient::Span(&mut root), TraceId(9), None), Ok(()));
    let child = layer.on_new_span(Some(&root), 8, &Vec::new(), Timestamp(2));
    assert_eq!(
        current_dist_trace_ctx(Ambient::Span(Some(&root))),
        Ok((TraceId(9), SpanId(1007)))
    );
    assert_eq!(
        current_dist_trace_ctx(Ambient::Span(Some(&child))),
        Ok((TraceId(9), SpanId(1008)))
    );
}

#[test]
fn scratch_after_open() {
    let (layer, _seen) = recording_layer();
    let root = layer.on_new_span(None, 1, &event_fields(), Timestamp(10));
    assert_eq!(root.span_id, SpanId(1001));
    assert_eq!(root.initialized_at, Timestamp(10));
    assert_eq!(root.events.len(), 0);
    assert_eq!(root.trace_ctx, None);

    let mut traced = layer.on_new_span(None, 2, &Vec::new(), Timestamp(11));
    register_dist_tracing_root(Ambient::Span(&mut traced), TraceId(77), Some(SpanId(5))).unwrap();
    assert_eq!(
        traced.trace_ctx,
        Some(TraceCtx { parent_span: Some(SpanId(5)), trace_id: TraceId(77) })
    );
    let child = layer.on_new_span(Some(&traced), 3, &Vec::new(), Timestamp(12));
    assert_eq!(child.span_id, SpanId(1003));
    assert_eq!(child.events.len(), 0);
    assert_eq!(
        child.trace_ctx,
        Some(TraceCtx { parent_span: Some(SpanId(1002)), trace_id: TraceId(77) })
    );
}

#[test]
fn registering_again_overwrites_and_leaves_children_alone() {
    let (layer, seen) = recording_layer();
    let mut root = layer.on_new_span(None, 1, &Vec::new(), Timestamp(1));
    register_dist_tracing_root(Ambient::Span(&mut root), TraceId(1), Some(SpanId(10))).unwrap();
    let child = layer.on_new_span(Some(&root), 2, &Vec::new(), Timestamp(2));
    register_dist_tracing_root(Ambient::Span(&mut root), TraceId(2), Some(SpanId(20))).unwrap();
    assert_eq!(
        root.trace_ctx,
        Some(TraceCtx { parent_span: Some(SpanId(20)), trace_id: TraceId(2) })
    );
    assert_eq!(
        child.trace_ctx,
        Some(TraceCtx { parent_span: Some(SpanId(1001)), trace_id: TraceId(1) })
    );
    assert!(layer.on_close(child, Some(root.span_id), meta("child"), Timestamp(3)));
    assert!(layer.on_close(root, None, meta("root"), Timestamp(4)));
    let spans = seen.spans.lock().unwrap();
    assert_eq!(spans[0].trace_id, TraceId(1));
    assert_eq!(spans[0].parent_id, Some(SpanId(1001)));
    assert_eq!(spans[1].trace_id, TraceId(2));
    assert_eq!(spans[1].parent_id, Some(SpanId(20)));
}

#[test]
fn an_event_keeps_the_trace_under_which_it_was_emitted() {
    let (layer, seen) = recording_layer();
    let mut root = layer.on_new_span(None, 1, &Vec::new(), Timestamp(1));
    register_dist_tracing_root(Ambient::Span(&mut root), TraceId(1), None).unwrap();
    layer.on_event(EventScope::Span(&mut root), &Vec::new(), meta("event"), Timestamp(2));
    register_dist_tracing_root(Ambient::Span(&mut root), TraceId(2), None).unwrap();
    layer.on_event(EventScope::Span(&mut root), &Vec::new(), meta("event"), Timestamp(3));
    assert!(layer.on_close(root, None, meta("root"), Timestamp(4)));
    let spans = seen.spans.lock().unwrap();
    let attached = seen.attached.lock().unwrap();
    assert_eq!(spans[0].trace_id, TraceId(2));
    assert_eq!(spans[0].parent_id, None);
    assert_eq!(attached[0].trace_id, Some(TraceId(1)));
    assert_eq!(attached[1].trace_id, Some(TraceId(2)));
    assert_eq!(attached[0].parent_id, Some(spans[0].id));
    assert_eq!(attached[1].parent_id, Some(spans[0].id));
}

#[test]
fn a_root_without_remote_parent_falls_back_to_its_dynamic_parent() {
    let (layer, seen) = recording_layer();
    let outer = layer.on_new_span(None, 1, &Vec::new(), Timestamp(1));
    let mut inner = layer.on_new_span(Some(&outer), 2, &Vec::new(), Timestamp(2));
    register_dist_tracing_root(Ambient::Span(&mut inner), TraceId(3), None).unwrap();
    assert!(layer.on_close(inner, Some(outer.span_id), meta("inner"), Timestamp(3)));
    assert!(!layer.on_close(outer, None, meta("outer"), Timestamp(4)));
    let spans = seen.spans.lock().unwrap();
    assert_eq!(spans.len(), 1);
    assert_eq!(spans[0].parent_id, Some(SpanId(1001)));
    assert_eq!(spans[0].trace_id, TraceId(3));
}

#[test]
fn completion_is_never_before_opening() {
    let mut scratch = open_span(None, SpanId(1), Timestamp(100), BlackholeVisitor);
    scratch.trace_ctx = Some(TraceCtx { parent_span: None, trace_id: TraceId(1) });
    let (span, events) = close_span(scratch, None, meta("s"), "svc", Timestamp(40)).unwrap();
    assert_eq!(span.initialized_at, Timestamp(100));
    assert_eq!(span.completed_at, Timestamp(100));
    assert_eq!(events.len(), 0);

    let mut scratch = open_span(None, SpanId(1), Timestamp(100), BlackholeVisitor);
    scratch.trace_ctx = Some(TraceCtx { parent_span: None, trace_id: TraceId(1) });
    let (span, _) = close_span(scratch, Some(SpanId(4)), meta("s"), "svc", Timestamp(140)).unwrap();
    assert_eq!(span.completed_at, Timestamp(140));
    assert_eq!(span.parent_id, Some(SpanId(4)));
    assert_eq!(span.id, SpanId(1));
    assert_eq!(span.name, "s");
    assert_eq!(span.meta, meta("s"));
    assert_eq!(span.service_name, "svc");

    let untraced = open_span(None, SpanId(1), Timestamp(100), BlackholeVisitor);
    assert!(close_span(untraced, None, meta("s"), "svc", Timestamp(140)).is_none());
}

#[test]
fn parent_of_an_event() {
    assert_eq!(event_parent(Some(3), false, Some(4)), Some(3));
    assert_eq!(event_parent(Some(3), true, Some(4)), Some(3));
    assert_eq!(event_parent(None, true, Some(4)), None);
    assert_eq!(event_parent(None, false, Some(4)), Some(4));
    assert_eq!(event_parent(None, false, None), None);
}

#[test]
fn emitting_decides_by_scope() {
    match emit_event(EventScope::Root, Timestamp(1), meta("e"), "svc", BlackholeVisitor) {
        Emitted::Standalone(event) => {
            assert_eq!(event.trace_id, None);
            assert_eq!(event.parent_id, None);
        }
        _ => panic!("an event under no span stands alone"),
    }
    let mut scratch = open_span(None, SpanId(6), Timestamp(0), BlackholeVisitor);
    assert!(matches!(
        emit_event(EventScope::Span(&mut scratch), Timestamp(1), meta("e"), "svc", BlackholeVisitor),
        Emitted::Dropped
    ));
    scratch.trace_ctx = Some(TraceCtx { parent_span: None, trace_id: TraceId(8) });
    assert!(matches!(
        emit_event(EventScope::Span(&mut scratch), Timestamp(2), meta("e"), "svc", BlackholeVisitor),
        Emitted::Attached
    ));
    assert_eq!(scratch.events.len(), 1);
    assert_eq!(scratch.events[0].trace_id, Some(TraceId(8)));
    assert_eq!(scratch.events[0].parent_id, Some(SpanId(6)));
    assert_eq!(scratch.events[0].initialized_at, Timestamp(2));
    assert!(matches!(
        emit_event(
            EventScope::<&mut Scratch<BlackholeVisitor>>::Unknown,
            Timestamp(1),
            meta("e"),
            "svc",
            BlackholeVisitor
        ),
        Emitted::Dropped
    ));
}

#[test]
fn blackhole_publishes_nothing() {
    let promote: fn(u64) -> SpanId = |x| SpanId(x);
    let layer = TelemetryLayer::new("svc", BlackholeTelemetry::default(), promote);
    assert_eq!(layer.service_name(), "svc");
    let mut span = layer.on_new_span(None, 1, &event_fields(), Timestamp(1));
    layer.on_record(&mut span, &event_fields());
    register_dist_tracing_root(Ambient::Span(&mut span), TraceId(1), None).unwrap();
    assert_eq!(
        layer.on_event(EventScope::Span(&mut span), &event_fields(), meta("e"), Timestamp(2)),
        EventOutcome::Attached
    );
    assert!(layer.on_close(span, None, meta("s"), Timestamp(3)));
}
