//! The span-lifecycle layer: what happens to a span's scratch state when the
//! span is opened, when fields are recorded on it, when an event is emitted
//! under it and when it is closed.

use vstd::prelude::*;
use crate::id::{SpanId, TraceId};
use crate::sequence::views;
use crate::telemetry::Telemetry;
use crate::time::Timestamp;
use crate::trace::{Event, EventRecord, Metadata, Span, SpanRecord};
use crate::visitor::{record_all, record_fields, Field, Visit};

verus! {

/// Marks a live span as part of a distributed trace.
#[derive(PartialEq, Eq, Structural, Hash, Clone, Copy, Debug)]
pub struct TraceCtx {
    /// The parent recorded for the span: the remote parent given when the
    /// span was registered as a trace root, or the promoted identifier of
    /// the span under which it was opened.
    pub parent_span: Option<SpanId>,
    /// The trace to which the span belongs.
    pub trace_id: TraceId,
}

/// The state kept for one span from the moment it is opened until it is
/// closed.
#[derive(Debug)]
pub struct Scratch<V> {
    /// The promoted identifier, computed once when the span was opened.
    pub span_id: SpanId,
    /// When the span was opened.
    pub initialized_at: Timestamp,
    /// Accumulates the fields recorded on the span.
    pub visitor: V,
    /// The events emitted under the span so far.
    pub events: Vec<Event<V>>,
    /// Present exactly if the span is part of a distributed trace.
    pub trace_ctx: Option<TraceCtx>,
}

/// The view of a `Scratch`: its visitor and its pending events by their
/// views.
pub struct ScratchView<A> {
    pub span_id: SpanId,
    pub initialized_at: Timestamp,
    pub visitor: A,
    pub events: Seq<EventRecord<A>>,
    pub trace_ctx: Option<TraceCtx>,
}

impl<V: View> View for Scratch<V> {
    type V = ScratchView<V::V>;

    open spec fn view(&self) -> ScratchView<V::V> {
        ScratchView {
            span_id: self.span_id,
            initialized_at: self.initialized_at,
            visitor: self.visitor@,
            events: views(self.events@),
            trace_ctx: self.trace_ctx,
        }
    }
}

impl<A> ScratchView<A> {
    /// Every pending event names this span as its parent and carries a
    /// trace identifier.
    pub open spec fn wf(self) -> bool {
        forall|i: int|
            0 <= i < self.events.len() ==> {
                &&& (#[trigger] self.events[i]).parent_id == Some(self.span_id)
                &&& self.events[i].trace_id is Some
            }
    }

    /// Every pending event carries the trace identifier `trace_id`.
    pub open spec fn events_in_trace(self, trace_id: TraceId) -> bool {
        forall|i: int|
            0 <= i < self.events.len() ==> (#[trigger] self.events[i]).trace_id == Some(trace_id)
    }
}

impl<V: Visit> Scratch<V> {
    /// Whether every pending event names this span as its parent and
    /// carries a trace identifier. This holds of every scratch that the
    /// functions of this module have made and changed.
    pub fn is_well_formed(&self) -> (ok: bool)
        ensures
            ok == self@.wf(),
    {
        let mut i: usize = 0;
        while i < self.events.len()
            invariant
                i <= self.events.len(),
                forall|j: int|
                    0 <= j < i ==> {
                        &&& (#[trigger] self@.events[j]).parent_id == Some(self.span_id)
                        &&& self@.events[j].trace_id is Some
                    },
            decreases self.events.len() - i,
        {
            let named = match self.events[i].parent_id {
                Some(parent) => parent.0 == self.span_id.0,
                None => false,
            };
            let traced = match self.events[i].trace_id {
                Some(_) => true,
                None => false,
            };
            if !named || !traced {
                proof {
                    assert(self@.events[i as int] == self.events@[i as int]@);
                }
                return false;
            }
            proof {
                assert(self@.events[i as int] == self.events@[i as int]@);
            }
            i = i + 1;
        }
        true
    }
}

/// The view of an optional scratch.
pub open spec fn scratch_view<V: View>(scratch: Option<&Scratch<V>>) -> Option<ScratchView<V::V>> {
    match scratch {
        Some(s) => Some(s@),
        None => None,
    }
}

/// The trace context that a span inherits when it is opened under `parent`:
/// the parent's trace, with the parent's promoted identifier as parent span,
/// if the parent is part of a trace.
pub open spec fn inherited<A>(parent: Option<ScratchView<A>>) -> Option<TraceCtx> {
    match parent {
        Some(p) => match p.trace_ctx {
            Some(ctx) => Some(TraceCtx { parent_span: Some(p.span_id), trace_id: ctx.trace_id }),
            None => None,
        },
        None => None,
    }
}

/// The scratch of a span that has just been opened.
pub open spec fn opened<A>(
    parent: Option<ScratchView<A>>,
    span_id: SpanId,
    now: Timestamp,
    visitor: A,
) -> ScratchView<A> {
    ScratchView {
        span_id,
        initialized_at: now,
        visitor,
        events: Seq::empty(),
        trace_ctx: inherited(parent),
    }
}

/// The scratch after the span has been registered as a trace root.
pub open spec fn rooted<A>(
    scratch: ScratchView<A>,
    trace_id: TraceId,
    remote_parent: Option<SpanId>,
) -> ScratchView<A> {
    ScratchView {
        trace_ctx: Some(TraceCtx { parent_span: remote_parent, trace_id }),
        ..scratch
    }
}

/// The event that is emitted under a span with trace context `ctx` and
/// promoted identifier `span_id`.
pub open spec fn child_event<A>(
    ctx: TraceCtx,
    span_id: SpanId,
    now: Timestamp,
    meta: Metadata,
    service_name: Seq<char>,
    values: A,
) -> EventRecord<A> {
    EventRecord {
        trace_id: Some(ctx.trace_id),
        parent_id: Some(span_id),
        initialized_at: now,
        meta,
        service_name,
        values,
    }
}

/// The event that is emitted under no span.
pub open spec fn root_event<A>(
    now: Timestamp,
    meta: Metadata,
    service_name: Seq<char>,
    values: A,
) -> EventRecord<A> {
    EventRecord { trace_id: None, parent_id: None, initialized_at: now, meta, service_name, values }
}

/// The scratch after an event has been emitted under the span: the event is
/// appended if the span is part of a trace, and dropped if it is not.
pub open spec fn with_event<A>(
    scratch: ScratchView<A>,
    now: Timestamp,
    meta: Metadata,
    service_name: Seq<char>,
    values: A,
) -> ScratchView<A> {
    match scratch.trace_ctx {
        Some(ctx) => ScratchView {
            events: scratch.events.push(
                child_event(ctx, scratch.span_id, now, meta, service_name, values),
            ),
            ..scratch
        },
        None => scratch,
    }
}

/// The later of two readings.
pub open spec fn later(a: Timestamp, b: Timestamp) -> Timestamp {
    if a.0 <= b.0 {
        b
    } else {
        a
    }
}

/// The parent of a completed span: the parent that its trace context names,
/// else the promoted identifier of the span under which it was opened.
pub open spec fn completed_parent(ctx: TraceCtx, dynamic_parent: Option<SpanId>) -> Option<SpanId> {
    match ctx.parent_span {
        Some(p) => Some(p),
        None => dynamic_parent,
    }
}

/// What closing a span publishes: nothing if the span is not part of a
/// trace, else the completed span with its pending events.
pub open spec fn closed<A>(
    scratch: ScratchView<A>,
    dynamic_parent: Option<SpanId>,
    meta: Metadata,
    service_name: Seq<char>,
    now: Timestamp,
) -> Option<(SpanRecord<A>, Seq<EventRecord<A>>)> {
    match scratch.trace_ctx {
        Some(ctx) => Some(
            (
                SpanRecord {
                    id: scratch.span_id,
                    name: meta.name@,
                    trace_id: ctx.trace_id,
                    parent_id: completed_parent(ctx, dynamic_parent),
                    initialized_at: scratch.initialized_at,
                    completed_at: later(scratch.initialized_at, now),
                    meta,
                    service_name,
                    values: scratch.visitor,
                },
                scratch.events,
            ),
        ),
        None => None,
    }
}

/// The parent of an event: the parent set on the event itself; else none if
/// the event is marked as a root; else the span that is current where the
/// event is emitted, if any.
pub fn event_parent(explicit: Option<u64>, is_root: bool, current: Option<u64>) -> (parent: Option<
    u64,
>)
    ensures
        parent == (if explicit is Some {
            explicit
        } else if is_root {
            None
        } else {
            current
        }),
{
    match explicit {
        Some(id) => Some(id),
        None => if is_root {
            None
        } else {
            current
        },
    }
}

/// The scratch of a span that is opened now under `parent` with promoted
/// identifier `span_id` and a visitor that has seen the span's attributes.
pub fn open_span<V: Visit>(
    parent: Option<&Scratch<V>>,
    span_id: SpanId,
    now: Timestamp,
    visitor: V,
) -> (scratch: Scratch<V>)
    ensures
        scratch@ == opened(scratch_view(parent), span_id, now, visitor@),
        scratch.span_id == span_id,
        scratch.initialized_at == now,
        scratch.visitor == visitor,
        scratch.events@.len() == 0,
        scratch.trace_ctx is Some <==> (parent is Some && parent.unwrap().trace_ctx is Some),
        scratch@.wf(),
{
    let trace_ctx = match parent {
        Some(p) => match p.trace_ctx {
            Some(ctx) => Some(TraceCtx { parent_span: Some(p.span_id), trace_id: ctx.trace_id }),
            None => None,
        },
        None => None,
    };
    let scratch = Scratch { span_id, initialized_at: now, visitor, events: Vec::new(), trace_ctx };
    proof {
        assert(scratch@.events =~= Seq::empty());
    }
    scratch
}

/// Where an event is emitted.
pub enum EventScope<S> {
    /// Under no span.
    Root,
    /// Under a span that the registry no longer holds.
    Unknown,
    /// Under the span with this scratch.
    Span(S),
}

/// What became of an event.
pub enum Emitted<V> {
    /// It belongs to no span and is to be published by itself.
    Standalone(Event<V>),
    /// It was appended to the pending events of its parent span.
    Attached,
    /// Its parent span is not part of a trace (or is gone); it was dropped.
    Dropped,
}

/// Decides what becomes of an event emitted now in `scope`, whose fields
/// `values` has seen.
pub fn emit_event<V: Visit>(
    scope: EventScope<&mut Scratch<V>>,
    now: Timestamp,
    meta: Metadata,
    service_name: &'static str,
    values: V,
) -> (emitted: Emitted<V>)
    requires
        scope matches EventScope::Span(scratch) ==> scratch@.wf(),
    ensures
        match scope {
            EventScope::Root => emitted matches Emitted::Standalone(event) && event@ == root_event(
                now,
                meta,
                service_name@,
                values@,
            ),
            EventScope::Unknown => emitted is Dropped,
            EventScope::Span(scratch) => {
                &&& final(scratch)@ == with_event(scratch@, now, meta, service_name@, values@)
                &&& final(scratch)@.wf()
                &&& final(scratch).span_id == scratch.span_id
                &&& final(scratch).initialized_at == scratch.initialized_at
                &&& final(scratch).visitor == scratch.visitor
                &&& final(scratch).trace_ctx == scratch.trace_ctx
                &&& if scratch.trace_ctx is Some {
                    emitted is Attached
                } else {
                    emitted is Dropped
                }
            },
        },
{
    match scope {
        EventScope::Root => Emitted::Standalone(
            Event {
                trace_id: None,
                parent_id: None,
                initialized_at: now,
                meta,
                service_name,
                values,
            },
        ),
        EventScope::Unknown => Emitted::Dropped,
        EventScope::Span(scratch) => match scratch.trace_ctx {
            Some(ctx) => {
                let event = Event {
                    trace_id: Some(ctx.trace_id),
                    parent_id: Some(scratch.span_id),
                    initialized_at: now,
                    meta,
                    service_name,
                    values,
                };
                proof {
                    crate::sequence::lemma_views_push(scratch.events@, event);
                }
                scratch.events.push(event);
                Emitted::Attached
            },
            None => Emitted::Dropped,
        },
    }
}

/// Closes a span now: if it is part of a trace, its scratch becomes the
/// completed span and the events that were attached to it.
pub fn close_span<V: Visit>(
    scratch: Scratch<V>,
    dynamic_parent: Option<SpanId>,
    meta: Metadata,
    service_name: &'static str,
    now: Timestamp,
) -> (completed: Option<(Span<V>, Vec<Event<V>>)>)
    requires
        scratch@.wf(),
    ensures
        completed is Some <==> scratch.trace_ctx is Some,
        match completed {
            Some((span, events)) => {
                &&& Some((span@, views(events@))) == closed(
                    scratch@,
                    dynamic_parent,
                    meta,
                    service_name@,
                    now,
                )
                &&& span.initialized_at.0 <= span.completed_at.0
                &&& forall|i: int|
                    0 <= i < events@.len() ==> (#[trigger] events@[i]).parent_id == Some(span.id)
            },
            None => closed(scratch@, dynamic_parent, meta, service_name@, now) is None,
        },
{
    let Scratch { span_id, initialized_at, visitor, events, trace_ctx } = scratch;
    match trace_ctx {
        Some(ctx) => {
            let parent_id = match ctx.parent_span {
                Some(p) => Some(p),
                None => dynamic_parent,
            };
            let span = Span {
                id: span_id,
                name: meta.name.to_owned(),
                trace_id: ctx.trace_id,
                parent_id,
                initialized_at,
                completed_at: initialized_at.latest(now),
                meta,
                service_name,
                values: visitor,
            };
            proof {
                assert forall|i: int| 0 <= i < events@.len() implies (#[trigger] events@[i]).parent_id
                    == Some(span.id) by {
                    assert(scratch@.events[i].parent_id == Some(span_id));
                }
            }
            Some((span, events))
        },
        None => None,
    }
}

/// A layer that turns the lifecycle of spans into completed records and
/// hands them to a telemetry sink.
pub struct TelemetryLayer<T: Telemetry, F: Fn(u64) -> SpanId> {
    service_name: &'static str,
    telemetry: T,
    promote_span_id: F,
}

/// What a layer did with an event.
#[derive(Debug, Clone, Copy, PartialEq, Eq, Structural, Hash)]
pub enum EventOutcome {
    /// The event belongs to no span; it went to the sink.
    Reported,
    /// The event waits with its parent span and goes to the sink with it.
    Attached,
    /// The event's parent span is not part of a trace; nothing is kept.
    Dropped,
}

impl<T: Telemetry, F: Fn(u64) -> SpanId> TelemetryLayer<T, F> {
    /// The promotion function accepts every native identifier.
    #[verifier::type_invariant]
    spec fn promotes_all(self) -> bool {
        forall|id: u64| call_requires(self.promote_span_id, (id,))
    }

    /// The name of the service, which every record carries.
    pub closed spec fn service(&self) -> &'static str {
        self.service_name
    }

    /// The sink to which this layer delivers.
    pub closed spec fn sink(&self) -> T {
        self.telemetry
    }

    /// Whether the promotion function may answer `promoted` for `id`.
    pub closed spec fn promotes(&self, id: u64, promoted: SpanId) -> bool {
        call_ensures(self.promote_span_id, (id,), promoted)
    }

    /// Whether the sink has been handed a completed span and events with
    /// these views: `report_span` has returned for them.
    pub open spec fn has_reported_span(
        &self,
        span: SpanRecord<<T::Visitor as View>::V>,
        events: Seq<EventRecord<<T::Visitor as View>::V>>,
    ) -> bool {
        exists|s: Span<T::Visitor>, e: Vec<Event<T::Visitor>>|
            #[trigger] call_ensures(T::report_span, (&self.sink(), s, e), ()) && s@ == span
                && views(e@) == events
    }

    /// Whether the sink has been handed an event with this view:
    /// `report_event` has returned for it.
    pub open spec fn has_reported_event(
        &self,
        event: EventRecord<<T::Visitor as View>::V>,
    ) -> bool {
        exists|e: Event<T::Visitor>|
            #[trigger] call_ensures(T::report_event, (&self.sink(), e), ()) && e@ == event
    }

    /// A layer that delivers to `telemetry` and promotes native span
    /// identifiers with `promote_span_id`.
    pub fn new(service_name: &'static str, telemetry: T, promote_span_id: F) -> (layer: Self)
        requires
            forall|id: u64| call_requires(promote_span_id, (id,)),
        ensures
            layer.service() == service_name,
            layer.sink() == telemetry,
            forall|id: u64, promoted: SpanId|
                layer.promotes(id, promoted) == call_ensures(promote_span_id, (id,), promoted),
    {
        TelemetryLayer { service_name, telemetry, promote_span_id }
    }

    /// The sink to which this layer delivers.
    pub fn telemetry(&self) -> (sink: &T)
        ensures
            *sink == self.sink(),
    {
        &self.telemetry
    }

    /// The name of the service.
    pub fn service_name(&self) -> (name: &'static str)
        ensures
            name == self.service(),
    {
        self.service_name
    }

    /// A span with native identifier `id` and attributes `fields` is opened
    /// now under `parent`. Its scratch holds the promoted identifier, the
    /// time, a fresh visitor that has seen `fields`, no events, and the
    /// trace context inherited from `parent`, if that has one.
    pub fn on_new_span(
        &self,
        parent: Option<&Scratch<T::Visitor>>,
        id: u64,
        fields: &Vec<Field>,
        now: Timestamp,
    ) -> (scratch: Scratch<T::Visitor>)
        ensures
            self.promotes(id, scratch.span_id),
            scratch@ == opened(
                scratch_view(parent),
                scratch.span_id,
                now,
                record_fields::<T::Visitor>(self.sink().fresh_visitor(), views(fields@)),
            ),
            scratch.events@.len() == 0,
            scratch.trace_ctx is Some <==> (parent is Some && parent.unwrap().trace_ctx is Some),
            scratch@.wf(),
    {
        proof {
            use_type_invariant(self);
        }
        let span_id = (self.promote_span_id)(id);
        let mut visitor = self.telemetry.mk_visitor();
        record_all(&mut visitor, fields);
        open_span(parent, span_id, now, visitor)
    }

    /// More fields are recorded on a live span.
    pub fn on_record(&self, scratch: &mut Scratch<T::Visitor>, fields: &Vec<Field>)
        ensures
            final(scratch).visitor@ == record_fields::<T::Visitor>(
                old(scratch).visitor@,
                views(fields@),
            ),
            final(scratch).span_id == old(scratch).span_id,
            final(scratch).initialized_at == old(scratch).initialized_at,
            final(scratch).events == old(scratch).events,
            final(scratch).trace_ctx == old(scratch).trace_ctx,
            final(scratch)@ == (ScratchView {
                visitor: record_fields::<T::Visitor>(old(scratch)@.visitor, views(fields@)),
                ..old(scratch)@
            }),
            final(scratch)@.wf() == old(scratch)@.wf(),
    {
        record_all(&mut scratch.visitor, fields);
    }

    /// An event with `fields` is emitted now in `scope`. Under no span it
    /// goes to the sink at once; under a span that is part of a trace it is
    /// appended to that span's pending events; else it is dropped.
    pub fn on_event(
        &self,
        scope: EventScope<&mut Scratch<T::Visitor>>,
        fields: &Vec<Field>,
        meta: Metadata,
        now: Timestamp,
    ) -> (outcome: EventOutcome)
        requires
            scope matches EventScope::Span(scratch) ==> scratch@.wf(),
        ensures
            match scope {
                EventScope::Root => {
                    &&& outcome == EventOutcome::Reported
                    &&& self.has_reported_event(
                        root_event(
                            now,
                            meta,
                            self.service()@,
                            record_fields::<T::Visitor>(
                                self.sink().fresh_visitor(),
                                views(fields@),
                            ),
                        ),
                    )
                },
                EventScope::Unknown => outcome == EventOutcome::Dropped,
                EventScope::Span(scratch) => {
                    &&& final(scratch)@ == with_event(
                        scratch@,
                        now,
                        meta,
                        self.service()@,
                        record_fields::<T::Visitor>(self.sink().fresh_visitor(), views(fields@)),
                    )
                    &&& final(scratch)@.wf()
                    &&& outcome == (if scratch.trace_ctx is Some {
                        EventOutcome::Attached
                    } else {
                        EventOutcome::Dropped
                    })
                },
            },
    {
        let mut visitor = self.telemetry.mk_visitor();
        record_all(&mut visitor, fields);
        match emit_event(scope, now, meta, self.service_name, visitor) {
            Emitted::Standalone(event) => {
                let ghost handed = event;
                self.telemetry.report_event(event);
                proof {
                    assert(call_ensures(T::report_event, (&self.sink(), handed), ()));
                }
                EventOutcome::Reported
            },
            Emitted::Attached => EventOutcome::Attached,
            Emitted::Dropped => EventOutcome::Dropped,
        }
    }

    /// A span is closed now. If it is part of a trace, the completed span
    /// goes to the sink together with its pending events; else its scratch
    /// is discarded. Says whether the span was published.
    pub fn on_close(
        &self,
        scratch: Scratch<T::Visitor>,
        dynamic_parent: Option<SpanId>,
        meta: Metadata,
        now: Timestamp,
    ) -> (reported: bool)
        requires
            scratch@.wf(),
        ensures
            reported == scratch.trace_ctx is Some,
            match closed(scratch@, dynamic_parent, meta, self.service()@, now) {
                Some((span, events)) => reported && self.has_reported_span(span, events),
                None => !reported,
            },
    {
        match close_span(scratch, dynamic_parent, meta, self.service_name, now) {
            Some((span, events)) => {
                let ghost handed = (span, events);
                self.telemetry.report_span(span, events);
                proof {
                    assert(call_ensures(
                        T::report_span,
                        (&self.sink(), handed.0, handed.1),
                        (),
                    ));
                }
                true
            },
            None => false,
        }
    }
}

} // verus!
