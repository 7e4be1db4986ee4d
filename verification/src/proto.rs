//! The OTLP trace messages that this library fills in, as plain data.
//!
//! Each message has a view that replaces strings and vectors by sequences.
//! Double values are held as their IEEE-754 bit pattern.

use vstd::prelude::*;
use crate::sequence::views;

verus! {

/// The value of an attribute.
#[derive(Debug, Clone)]
pub enum Value {
    StringValue(String),
    BoolValue(bool),
    IntValue(i64),
    /// The bit pattern of a 64-bit IEEE-754 number.
    DoubleValue(u64),
}

/// The view of a `Value`.
pub enum ValueView {
    StringValue(Seq<char>),
    BoolValue(bool),
    IntValue(i64),
    DoubleValue(u64),
}

impl View for Value {
    type V = ValueView;

    open spec fn view(&self) -> ValueView {
        match self {
            Value::StringValue(s) => ValueView::StringValue(s@),
            Value::BoolValue(b) => ValueView::BoolValue(*b),
            Value::IntValue(i) => ValueView::IntValue(*i),
            Value::DoubleValue(bits) => ValueView::DoubleValue(*bits),
        }
    }
}

impl From<String> for Value {
    fn from(value: String) -> (v: Self) {
        Value::StringValue(value)
    }
}

impl vstd::std_specs::convert::FromSpecImpl<String> for Value {
    open spec fn obeys_from_spec() -> bool {
        true
    }

    open spec fn from_spec(value: String) -> Self {
        Value::StringValue(value)
    }
}

impl From<i64> for Value {
    fn from(value: i64) -> (v: Self) {
        Value::IntValue(value)
    }
}

impl vstd::std_specs::convert::FromSpecImpl<i64> for Value {
    open spec fn obeys_from_spec() -> bool {
        true
    }

    open spec fn from_spec(value: i64) -> Self {
        Value::IntValue(value)
    }
}

impl From<bool> for Value {
    fn from(value: bool) -> (v: Self) {
        Value::BoolValue(value)
    }
}

impl vstd::std_specs::convert::FromSpecImpl<bool> for Value {
    open spec fn obeys_from_spec() -> bool {
        true
    }

    open spec fn from_spec(value: bool) -> Self {
        Value::BoolValue(value)
    }
}

/// A value that may be unset.
#[derive(Debug, Clone)]
pub struct AnyValue {
    pub value: Option<Value>,
}

/// The view of an `AnyValue`.
pub struct AnyValueView {
    pub value: Option<ValueView>,
}

impl View for AnyValue {
    type V = AnyValueView;

    open spec fn view(&self) -> AnyValueView {
        AnyValueView {
            value: match self.value {
                Some(v) => Some(v@),
                None => None,
            },
        }
    }
}

/// One attribute: a key and its value.
#[derive(Debug, Clone)]
pub struct KeyValue {
    pub key: String,
    pub value: Option<AnyValue>,
}

/// The view of a `KeyValue`.
pub struct KeyValueView {
    pub key: Seq<char>,
    pub value: Option<AnyValueView>,
}

impl View for KeyValue {
    type V = KeyValueView;

    open spec fn view(&self) -> KeyValueView {
        KeyValueView {
            key: self.key@,
            value: match self.value {
                Some(v) => Some(v@),
                None => None,
            },
        }
    }
}

/// The attribute that `KeyValue::new` builds from a key and a value.
pub open spec fn key_value(key: Seq<char>, value: ValueView) -> KeyValueView {
    KeyValueView { key, value: Some(AnyValueView { value: Some(value) }) }
}

impl KeyValue {
    /// An attribute whose value is set.
    pub fn new(key: String, value: Value) -> (kv: Self)
        ensures
            kv@ == key_value(key@, value@),
    {
        KeyValue { key, value: Some(AnyValue { value: Some(value) }) }
    }
}

/// A point-in-time annotation of a span.
#[derive(Debug, Clone)]
pub struct Event {
    pub time_unix_nano: u64,
    pub name: String,
    pub attributes: Vec<KeyValue>,
    pub dropped_attributes_count: u32,
}

/// The view of an `Event`.
pub struct EventView {
    pub time_unix_nano: u64,
    pub name: Seq<char>,
    pub attributes: Seq<KeyValueView>,
    pub dropped_attributes_count: u32,
}

impl View for Event {
    type V = EventView;

    open spec fn view(&self) -> EventView {
        EventView {
            time_unix_nano: self.time_unix_nano,
            name: self.name@,
            attributes: views(self.attributes@),
            dropped_attributes_count: self.dropped_attributes_count,
        }
    }
}

/// A pointer from one span to another, possibly in another trace.
#[derive(Debug, Clone)]
pub struct Link {
    pub trace_id: Vec<u8>,
    pub span_id: Vec<u8>,
}

/// The view of a `Link`.
pub struct LinkView {
    pub trace_id: Seq<u8>,
    pub span_id: Seq<u8>,
}

impl View for Link {
    type V = LinkView;

    open spec fn view(&self) -> LinkView {
        LinkView { trace_id: self.trace_id@, span_id: self.span_id@ }
    }
}

/// The outcome of the operation a span describes.
#[derive(Debug, Clone)]
pub struct Status {
    pub message: String,
    pub code: i32,
}

/// The view of a `Status`.
pub struct StatusView {
    pub message: Seq<char>,
    pub code: i32,
}

impl View for Status {
    type V = StatusView;

    open spec fn view(&self) -> StatusView {
        StatusView { message: self.message@, code: self.code }
    }
}

/// One completed span as OTLP carries it.
#[derive(Debug, Clone)]
pub struct Span {
    pub trace_id: Vec<u8>,
    pub span_id: Vec<u8>,
    pub trace_state: String,
    pub parent_span_id: Vec<u8>,
    pub flags: u32,
    pub name: String,
    pub kind: i32,
    pub start_time_unix_nano: u64,
    pub end_time_unix_nano: u64,
    pub attributes: Vec<KeyValue>,
    pub dropped_attributes_count: u32,
    pub events: Vec<Event>,
    pub dropped_events_count: u32,
    pub links: Vec<Link>,
    pub dropped_links_count: u32,
    pub status: Option<Status>,
}

/// The view of a `Span`.
pub struct SpanView {
    pub trace_id: Seq<u8>,
    pub span_id: Seq<u8>,
    pub trace_state: Seq<char>,
    pub parent_span_id: Seq<u8>,
    pub flags: u32,
    pub name: Seq<char>,
    pub kind: i32,
    pub start_time_unix_nano: u64,
    pub end_time_unix_nano: u64,
    pub attributes: Seq<KeyValueView>,
    pub dropped_attributes_count: u32,
    pub events: Seq<EventView>,
    pub dropped_events_count: u32,
    pub links: Seq<LinkView>,
    pub dropped_links_count: u32,
    pub status: Option<StatusView>,
}

impl View for Span {
    type V = SpanView;

    open spec fn view(&self) -> SpanView {
        SpanView {
            trace_id: self.trace_id@,
            span_id: self.span_id@,
            trace_state: self.trace_state@,
            parent_span_id: self.parent_span_id@,
            flags: self.flags,
            name: self.name@,
            kind: self.kind,
            start_time_unix_nano: self.start_time_unix_nano,
            end_time_unix_nano: self.end_time_unix_nano,
            attributes: views(self.attributes@),
            dropped_attributes_count: self.dropped_attributes_count,
            events: views(self.events@),
            dropped_events_count: self.dropped_events_count,
            links: views(self.links@),
            dropped_links_count: self.dropped_links_count,
            status: match self.status {
                Some(s) => Some(s@),
                None => None,
            },
        }
    }
}

/// The entity that produced a batch of spans.
#[derive(Debug, Clone)]
pub struct Resource {
    pub attributes: Vec<KeyValue>,
    pub dropped_attributes_count: u32,
}

/// The view of a `Resource`.
pub struct ResourceView {
    pub attributes: Seq<KeyValueView>,
    pub dropped_attributes_count: u32,
}

impl View for Resource {
    type V = ResourceView;

    open spec fn view(&self) -> ResourceView {
        ResourceView {
            attributes: views(self.attributes@),
            dropped_attributes_count: self.dropped_attributes_count,
        }
    }
}

/// The instrumentation library that produced a group of spans.
#[derive(Debug, Clone)]
pub struct InstrumentationScope {
    pub name: String,
    pub version: String,
}

/// The view of an `InstrumentationScope`.
pub struct InstrumentationScopeView {
    pub name: Seq<char>,
    pub version: Seq<char>,
}

impl View for InstrumentationScope {
    type V = InstrumentationScopeView;

    open spec fn view(&self) -> InstrumentationScopeView {
        InstrumentationScopeView { name: self.name@, version: self.version@ }
    }
}

/// The spans of one instrumentation scope.
#[derive(Debug, Clone)]
pub struct ScopeSpans {
    pub scope: Option<InstrumentationScope>,
    pub spans: Vec<Span>,
    pub schema_url: String,
}

/// The view of a `ScopeSpans`.
pub struct ScopeSpansView {
    pub scope: Option<InstrumentationScopeView>,
    pub spans: Seq<SpanView>,
    pub schema_url: Seq<char>,
}

impl View for ScopeSpans {
    type V = ScopeSpansView;

    open spec fn view(&self) -> ScopeSpansView {
        ScopeSpansView {
            scope: match self.scope {
                Some(s) => Some(s@),
                None => None,
            },
            spans: views(self.spans@),
            schema_url: self.schema_url@,
        }
    }
}

/// The spans of one resource, grouped by scope.
#[derive(Debug, Clone)]
pub struct ResourceSpans {
    pub resource: Option<Resource>,
    pub scope_spans: Vec<ScopeSpans>,
    pub schema_url: String,
}

/// The view of a `ResourceSpans`.
pub struct ResourceSpansView {
    pub resource: Option<ResourceView>,
    pub scope_spans: Seq<ScopeSpansView>,
    pub schema_url: Seq<char>,
}

impl View for ResourceSpans {
    type V = ResourceSpansView;

    open spec fn view(&self) -> ResourceSpansView {
        ResourceSpansView {
            resource: match self.resource {
                Some(r) => Some(r@),
                None => None,
            },
            scope_spans: views(self.scope_spans@),
            schema_url: self.schema_url@,
        }
    }
}

/// The body of one export request.
#[derive(Debug, Clone)]
pub struct ExportTraceServiceRequest {
    pub resource_spans: Vec<ResourceSpans>,
}

/// The view of an `ExportTraceServiceRequest`.
pub struct ExportTraceServiceRequestView {
    pub resource_spans: Seq<ResourceSpansView>,
}

impl View for ExportTraceServiceRequest {
    type V = ExportTraceServiceRequestView;

    open spec fn view(&self) -> ExportTraceServiceRequestView {
        ExportTraceServiceRequestView { resource_spans: views(self.resource_spans@) }
    }
}

/// What a collector says of a request that it accepted only in part.
#[derive(Debug, Clone)]
pub struct ExportTracePartialSuccess {
    pub rejected_spans: i64,
    pub error_message: String,
}

/// The body of a collector's answer.
#[derive(Debug, Clone)]
pub struct ExportTraceServiceResponse {
    pub partial_success: Option<ExportTracePartialSuccess>,
}

impl Value {
    /// A copy of this value.
    pub fn duplicate(&self) -> (copy: Self)
        ensures
            copy@ == self@,
    {
        match self {
            Value::StringValue(s) => Value::StringValue(s.clone()),
            Value::BoolValue(b) => Value::BoolValue(*b),
            Value::IntValue(i) => Value::IntValue(*i),
            Value::DoubleValue(bits) => Value::DoubleValue(*bits),
        }
    }
}

impl KeyValue {
    /// A copy of this attribute.
    pub fn duplicate(&self) -> (copy: Self)
        ensures
            copy@ == self@,
    {
        let value = match &self.value {
            Some(any) => Some(
                AnyValue {
                    value: match &any.value {
                        Some(v) => Some(v.duplicate()),
                        None => None,
                    },
                },
            ),
            None => None,
        };
        KeyValue { key: self.key.clone(), value }
    }
}

impl Resource {
    /// A copy of this resource.
    pub fn duplicate(&self) -> (copy: Self)
        ensures
            copy@ == self@,
    {
        let mut attributes: Vec<KeyValue> = Vec::new();
        let mut i: usize = 0;
        while i < self.attributes.len()
            invariant
                i <= self.attributes.len(),
                attributes@.len() == i,
                forall|j: int| 0 <= j < i ==> (#[trigger] attributes@[j])@ == self.attributes@[j]@,
            decreases self.attributes.len() - i,
        {
            attributes.push(self.attributes[i].duplicate());
            i = i + 1;
        }
        proof {
            assert(views(attributes@) =~= views(self.attributes@));
        }
        Resource { attributes, dropped_attributes_count: self.dropped_attributes_count }
    }
}

} // verus!
