//! Completed records, the errors of the distributed-context functions, and
//! those functions themselves.

use vstd::prelude::*;
use crate::id::{SpanId, TraceId};
use crate::telemetry_layer::{rooted, Scratch, TraceCtx};
use crate::time::Timestamp;
use crate::visitor::Visit;

verus! {

/// The verbosity of a span or event.
#[derive(Debug, Clone, Copy, PartialEq, Eq, Hash)]
pub enum Level {
    Trace,
    Debug,
    Info,
    Warn,
    Error,
}

/// Where a span or event was declared.
#[derive(Debug, Clone, Copy, PartialEq, Eq, Hash)]
pub struct Metadata {
    pub name: &'static str,
    pub target: &'static str,
    pub level: Level,
    pub module: Option<&'static str>,
    pub file: Option<&'static str>,
    pub line: Option<u32>,
}

/// A `Span` holds ready-to-publish information gathered during the lifetime
/// of a span.
#[derive(Debug, Clone)]
pub struct Span<V> {
    /// Identifies this span.
    pub id: SpanId,
    /// The name of the span.
    pub name: String,
    /// The trace to which this span belongs.
    pub trace_id: TraceId,
    /// The parent span, if any.
    pub parent_id: Option<SpanId>,
    /// When the span was opened.
    pub initialized_at: Timestamp,
    /// When the span was closed; never earlier than `initialized_at`.
    pub completed_at: Timestamp,
    /// Where the span was declared.
    pub meta: Metadata,
    /// The service on which the span occurred.
    pub service_name: &'static str,
    /// What the visitor kept of the fields recorded on the span.
    pub values: V,
}

/// The view of a `Span`, with the visitor's view as `values`.
pub struct SpanRecord<A> {
    pub id: SpanId,
    pub name: Seq<char>,
    pub trace_id: TraceId,
    pub parent_id: Option<SpanId>,
    pub initialized_at: Timestamp,
    pub completed_at: Timestamp,
    pub meta: Metadata,
    pub service_name: Seq<char>,
    pub values: A,
}

impl<V: View> View for Span<V> {
    type V = SpanRecord<V::V>;

    open spec fn view(&self) -> SpanRecord<V::V> {
        SpanRecord {
            id: self.id,
            name: self.name@,
            trace_id: self.trace_id,
            parent_id: self.parent_id,
            initialized_at: self.initialized_at,
            completed_at: self.completed_at,
            meta: self.meta,
            service_name: self.service_name@,
            values: self.values@,
        }
    }
}

/// An `Event` holds ready-to-publish information about one event.
#[derive(Debug, Clone)]
pub struct Event<V> {
    /// The trace to which this event belongs, if it is part of one.
    pub trace_id: Option<TraceId>,
    /// The span to which this event is attached, if any.
    pub parent_id: Option<SpanId>,
    /// When the event was emitted.
    pub initialized_at: Timestamp,
    /// Where the event was declared.
    pub meta: Metadata,
    /// The service on which the event occurred.
    pub service_name: &'static str,
    /// What the visitor kept of the event's fields.
    pub values: V,
}

/// The view of an `Event`, with the visitor's view as `values`.
pub struct EventRecord<A> {
    pub trace_id: Option<TraceId>,
    pub parent_id: Option<SpanId>,
    pub initialized_at: Timestamp,
    pub meta: Metadata,
    pub service_name: Seq<char>,
    pub values: A,
}

impl<V: View> View for Event<V> {
    type V = EventRecord<V::V>;

    open spec fn view(&self) -> EventRecord<V::V> {
        EventRecord {
            trace_id: self.trace_id,
            parent_id: self.parent_id,
            initialized_at: self.initialized_at,
            meta: self.meta,
            service_name: self.service_name@,
            values: self.values@,
        }
    }
}

/// Errors that can occur while registering the current span as a
/// distributed trace root or retrieving the current trace context.
#[derive(PartialEq, Eq, Structural, Hash, Clone, Copy, Debug)]
#[non_exhaustive]
pub enum TraceCtxError {
    /// The lifecycle layer is not registered with the subscriber of the
    /// current span.
    TelemetryLayerNotRegistered,
    /// The subscriber of the current span is not the span registry.
    RegistrySubscriberNotRegistered,
    /// No span is current, or the current span is not enabled.
    NoEnabledSpan,
    /// The current span has no trace context: no enclosing span was
    /// registered as a trace root.
    NoParentNodeHasTraceCtx,
}

impl TraceCtxError {
    /// The message that describes this error to a person.
    pub fn message(&self) -> (text: &'static str)
        ensures
            text@ == match *self {
                TraceCtxError::TelemetryLayerNotRegistered =>
                    "`TelemetryLayer` is not a registered subscriber of the current Span"@,
                TraceCtxError::RegistrySubscriberNotRegistered =>
                    "no `tracing_subscriber::Registry` is a registered subscriber of the current Span"@,
                TraceCtxError::NoEnabledSpan =>
                    "the span is not enabled with an associated subscriber"@,
                TraceCtxError::NoParentNodeHasTraceCtx =>
                    "unable to evaluate trace context; assert `register_dist_tracing_root` is called in some parent span"@,
            },
    {
        match self {
            TraceCtxError::TelemetryLayerNotRegistered =>
                "`TelemetryLayer` is not a registered subscriber of the current Span",
            TraceCtxError::RegistrySubscriberNotRegistered =>
                "no `tracing_subscriber::Registry` is a registered subscriber of the current Span",
            TraceCtxError::NoEnabledSpan => "the span is not enabled with an associated subscriber",
            TraceCtxError::NoParentNodeHasTraceCtx =>
                "unable to evaluate trace context; assert `register_dist_tracing_root` is called in some parent span",
        }
    }
}

/// What the ambient registry says of the span that is current on this
/// thread or task.
pub enum Ambient<S> {
    /// No span is current, or none with a subscriber.
    NoEnabledSpan,
    /// The subscriber of the current span is not the span registry.
    ForeignSubscriber,
    /// The registry is the subscriber of the current span, and this is what
    /// it holds for that span.
    Span(S),
}

/// Registers the current span as the local root of a distributed trace: its
/// trace context becomes `trace_id` with `remote_parent_span` as parent,
/// whatever it was before. Spans that were opened under it earlier keep the
/// context they inherited then.
pub fn register_dist_tracing_root<V: Visit>(
    current: Ambient<&mut Scratch<V>>,
    trace_id: TraceId,
    remote_parent_span: Option<SpanId>,
) -> (result: Result<(), TraceCtxError>)
    ensures
        result == match current {
            Ambient::NoEnabledSpan => Err::<(), TraceCtxError>(TraceCtxError::NoEnabledSpan),
            Ambient::ForeignSubscriber => Err(TraceCtxError::RegistrySubscriberNotRegistered),
            Ambient::Span(_) => Ok(()),
        },
        current matches Ambient::Span(scratch) ==> {
            &&& final(scratch)@ == rooted(scratch@, trace_id, remote_parent_span)
            &&& final(scratch).trace_ctx == Some(
                TraceCtx { parent_span: remote_parent_span, trace_id },
            )
            &&& final(scratch).span_id == scratch.span_id
            &&& final(scratch).initialized_at == scratch.initialized_at
            &&& final(scratch).visitor == scratch.visitor
            &&& final(scratch).events == scratch.events
            &&& final(scratch)@.wf() == scratch@.wf()
        },
{
    match current {
        Ambient::NoEnabledSpan => Err(TraceCtxError::NoEnabledSpan),
        Ambient::ForeignSubscriber => Err(TraceCtxError::RegistrySubscriberNotRegistered),
        Ambient::Span(scratch) => {
            scratch.trace_ctx = Some(TraceCtx { parent_span: remote_parent_span, trace_id });
            Ok(())
        },
    }
}

/// The trace context of the current span: the trace it belongs to and its
/// own promoted identifier. Only the current span's scratch is consulted,
/// which is absent if the registry does not hold the span.
pub fn current_dist_trace_ctx<V: Visit>(current: Ambient<Option<&Scratch<V>>>) -> (result: Result<
    (TraceId, SpanId),
    TraceCtxError,
>)
    ensures
        result == match current {
            Ambient::NoEnabledSpan => Err::<(TraceId, SpanId), TraceCtxError>(
                TraceCtxError::NoEnabledSpan,
            ),
            Ambient::ForeignSubscriber => Err(TraceCtxError::RegistrySubscriberNotRegistered),
            Ambient::Span(None) => Err(TraceCtxError::NoParentNodeHasTraceCtx),
            Ambient::Span(Some(scratch)) => match scratch.trace_ctx {
                Some(ctx) => Ok((ctx.trace_id, scratch.span_id)),
                None => Err(TraceCtxError::NoParentNodeHasTraceCtx),
            },
        },
{
    match current {
        Ambient::NoEnabledSpan => Err(TraceCtxError::NoEnabledSpan),
        Ambient::ForeignSubscriber => Err(TraceCtxError::RegistrySubscriberNotRegistered),
        Ambient::Span(None) => Err(TraceCtxError::NoParentNodeHasTraceCtx),
        Ambient::Span(Some(scratch)) => match scratch.trace_ctx {
            Some(ctx) => Ok((ctx.trace_id, scratch.span_id)),
            None => Err(TraceCtxError::NoParentNodeHasTraceCtx),
        },
    }
}

} // verus!
