//! The life of one span as a history: what its scratch holds after any
//! sequence of registrations, recordings and events, and what closing it
//! then publishes.

use vstd::prelude::*;
use crate::id::{SpanId, TraceId};
use crate::telemetry_layer::{closed, opened, rooted, with_event, ScratchView, TraceCtx};
use crate::time::Timestamp;
use crate::trace::Metadata;

verus! {

/// One thing that happens to a live span.
pub enum Step<A> {
    /// The span is registered as the root of a distributed trace.
    Root { trace_id: TraceId, remote_parent: Option<SpanId> },
    /// Fields are recorded on the span, which leaves its visitor as given.
    Record { visitor: A },
    /// An event is emitted under the span.
    Event { now: Timestamp, meta: Metadata, service_name: Seq<char>, values: A },
}

/// The scratch after one step.
pub open spec fn after_step<A>(scratch: ScratchView<A>, step: Step<A>) -> ScratchView<A> {
    match step {
        Step::Root { trace_id, remote_parent } => rooted(scratch, trace_id, remote_parent),
        Step::Record { visitor } => ScratchView { visitor, ..scratch },
        Step::Event { now, meta, service_name, values } => with_event(
            scratch,
            now,
            meta,
            service_name,
            values,
        ),
    }
}

/// The scratch after a sequence of steps.
pub open spec fn after_steps<A>(scratch: ScratchView<A>, steps: Seq<Step<A>>) -> ScratchView<A>
    decreases steps.len(),
{
    if steps.len() == 0 {
        scratch
    } else {
        after_step(after_steps(scratch, steps.drop_last()), steps.last())
    }
}

/// The trace context that the last registration among `steps` installs, if
/// there is a registration among them.
pub open spec fn last_root<A>(steps: Seq<Step<A>>) -> Option<TraceCtx>
    decreases steps.len(),
{
    if steps.len() == 0 {
        None
    } else {
        match steps.last() {
            Step::Root { trace_id, remote_parent } => Some(
                TraceCtx { parent_span: remote_parent, trace_id },
            ),
            _ => last_root(steps.drop_last()),
        }
    }
}

/// The promoted identifier of the span under which a span was opened.
pub open spec fn dynamic_parent_of<A>(parent: Option<ScratchView<A>>) -> Option<SpanId> {
    match parent {
        Some(p) => Some(p.span_id),
        None => None,
    }
}

/// Whether every event among `steps` that was attached to the span was
/// emitted while the span belonged to the trace `trace_id`.
pub open spec fn events_emitted_in_trace<A>(
    scratch: ScratchView<A>,
    steps: Seq<Step<A>>,
    trace_id: TraceId,
) -> bool {
    forall|i: int|
        0 <= i < steps.len() && (#[trigger] steps[i]) is Event ==> (after_steps(
            scratch,
            steps.take(i),
        ).trace_ctx matches Some(ctx) ==> ctx.trace_id == trace_id)
}

/// No step changes the promoted identifier of a span or the time at which
/// it was opened, and every step keeps the pending events attached to the
/// span.
pub proof fn lemma_steps_keep_identity<A>(scratch: ScratchView<A>, steps: Seq<Step<A>>)
    ensures
        after_steps(scratch, steps).span_id == scratch.span_id,
        after_steps(scratch, steps).initialized_at == scratch.initialized_at,
        scratch.wf() ==> after_steps(scratch, steps).wf(),
    decreases steps.len(),
{
    if steps.len() > 0 {
        lemma_steps_keep_identity(scratch, steps.drop_last());
    }
}

/// The trace context of a live span is the one that the last registration
/// installed, or, if the span was never registered, the one it had at
/// first.
pub proof fn lemma_trace_ctx_is_last_root<A>(scratch: ScratchView<A>, steps: Seq<Step<A>>)
    ensures
        after_steps(scratch, steps).trace_ctx == (match last_root(steps) {
            Some(ctx) => Some(ctx),
            None => scratch.trace_ctx,
        }),
    decreases steps.len(),
{
    if steps.len() > 0 {
        lemma_trace_ctx_is_last_root(scratch, steps.drop_last());
    }
}

/// A span is published when it is closed exactly if it was registered as a
/// trace root or was opened under a span that was part of a trace then.
/// What happened to that span afterwards makes no difference.
pub proof fn lemma_published_iff_traced<A>(
    parent: Option<ScratchView<A>>,
    span_id: SpanId,
    opened_at: Timestamp,
    visitor: A,
    steps: Seq<Step<A>>,
    meta: Metadata,
    service_name: Seq<char>,
    now: Timestamp,
)
    ensures
        closed(
            after_steps(opened(parent, span_id, opened_at, visitor), steps),
            dynamic_parent_of(parent),
            meta,
            service_name,
            now,
        ) is Some <==> (last_root(steps) is Some || (parent matches Some(p)
            && p.trace_ctx is Some)),
{
    lemma_trace_ctx_is_last_root(opened(parent, span_id, opened_at, visitor), steps);
}

/// The parent of a published span is the remote parent given to the last
/// registration of the span as a trace root, or else the promoted
/// identifier of the span under which it was opened. Its trace is the one
/// given to that registration, or else the trace of the span under which it
/// was opened.
pub proof fn lemma_published_parent<A>(
    parent: Option<ScratchView<A>>,
    span_id: SpanId,
    opened_at: Timestamp,
    visitor: A,
    steps: Seq<Step<A>>,
    meta: Metadata,
    service_name: Seq<char>,
    now: Timestamp,
)
    requires
        closed(
            after_steps(opened(parent, span_id, opened_at, visitor), steps),
            dynamic_parent_of(parent),
            meta,
            service_name,
            now,
        ) is Some,
    ensures
        ({
            let span = closed(
                after_steps(opened(parent, span_id, opened_at, visitor), steps),
                dynamic_parent_of(parent),
                meta,
                service_name,
                now,
            )->Some_0.0;
            &&& span.id == span_id
            &&& match last_root(steps) {
                Some(ctx) => {
                    &&& span.trace_id == ctx.trace_id
                    &&& span.parent_id == (match ctx.parent_span {
                        Some(remote) => Some(remote),
                        None => dynamic_parent_of(parent),
                    })
                },
                None => {
                    &&& parent matches Some(p)
                    &&& p.trace_ctx matches Some(ctx)
                    &&& span.trace_id == ctx.trace_id
                    &&& span.parent_id == Some(p.span_id)
                },
            }
            &&& span.parent_id matches Some(named) ==> {
                ||| last_root(steps) matches Some(ctx) && ctx.parent_span == Some(named)
                ||| parent matches Some(p) && named == p.span_id
            }
        }),
{
    let first = opened(parent, span_id, opened_at, visitor);
    lemma_trace_ctx_is_last_root(first, steps);
    lemma_steps_keep_identity(first, steps);
}

/// A published span is never completed before it was opened.
pub proof fn lemma_published_times<A>(
    scratch: ScratchView<A>,
    dynamic_parent: Option<SpanId>,
    meta: Metadata,
    service_name: Seq<char>,
    now: Timestamp,
)
    requires
        closed(scratch, dynamic_parent, meta, service_name, now) is Some,
    ensures
        ({
            let span = closed(scratch, dynamic_parent, meta, service_name, now)->Some_0.0;
            &&& span.initialized_at == scratch.initialized_at
            &&& span.initialized_at.0 <= span.completed_at.0
            &&& scratch.initialized_at.0 <= now.0 ==> span.completed_at == now
        }),
{
}

/// If every pending event carries `trace_id`, and every event that is
/// attached during `steps` is emitted while the span belongs to that trace,
/// then every pending event carries it afterwards.
pub proof fn lemma_events_stay_in_trace<A>(
    scratch: ScratchView<A>,
    steps: Seq<Step<A>>,
    trace_id: TraceId,
)
    requires
        scratch.events_in_trace(trace_id),
        events_emitted_in_trace(scratch, steps, trace_id),
    ensures
        after_steps(scratch, steps).events_in_trace(trace_id),
    decreases steps.len(),
{
    if steps.len() > 0 {
        let init = steps.drop_last();
        let last = (steps.len() - 1) as int;
        assert forall|i: int| 0 <= i < init.len() && (#[trigger] init[i]) is Event implies (
        after_steps(scratch, init.take(i)).trace_ctx matches Some(ctx) ==> ctx.trace_id
            == trace_id) by {
            assert(init.take(i) =~= steps.take(i));
            assert(steps[i] is Event);
        }
        lemma_events_stay_in_trace(scratch, init, trace_id);
        assert(steps.take(last) =~= init);
        assert(steps[last] == steps.last());
    }
}

/// Every event that is published with a span names that span as its
/// parent, whatever happened to the span while it was live.
pub proof fn lemma_published_events_name_span<A>(
    parent: Option<ScratchView<A>>,
    span_id: SpanId,
    opened_at: Timestamp,
    visitor: A,
    steps: Seq<Step<A>>,
    meta: Metadata,
    service_name: Seq<char>,
    now: Timestamp,
)
    requires
        closed(
            after_steps(opened(parent, span_id, opened_at, visitor), steps),
            dynamic_parent_of(parent),
            meta,
            service_name,
            now,
        ) is Some,
    ensures
        ({
            let published = closed(
                after_steps(opened(parent, span_id, opened_at, visitor), steps),
                dynamic_parent_of(parent),
                meta,
                service_name,
                now,
            )->Some_0;
            forall|j: int|
                0 <= j < published.1.len() ==> (#[trigger] published.1[j]).parent_id == Some(
                    published.0.id,
                )
        }),
{
    let first = opened(parent, span_id, opened_at, visitor);
    lemma_steps_keep_identity(first, steps);
}

/// Every event that is published with a span carries the span's trace,
/// provided that the span belonged to that trace whenever one of those
/// events was emitted. (An event keeps the trace under which it was
/// emitted; registering the span under another trace afterwards does not
/// tag it anew.)
pub proof fn lemma_published_events_in_trace<A>(
    parent: Option<ScratchView<A>>,
    span_id: SpanId,
    opened_at: Timestamp,
    visitor: A,
    steps: Seq<Step<A>>,
    meta: Metadata,
    service_name: Seq<char>,
    now: Timestamp,
)
    requires
        closed(
            after_steps(opened(parent, span_id, opened_at, visitor), steps),
            dynamic_parent_of(parent),
            meta,
            service_name,
            now,
        ) is Some,
        events_emitted_in_trace(
            opened(parent, span_id, opened_at, visitor),
            steps,
            closed(
                after_steps(opened(parent, span_id, opened_at, visitor), steps),
                dynamic_parent_of(parent),
                meta,
                service_name,
                now,
            )->Some_0.0.trace_id,
        ),
    ensures
        ({
            let published = closed(
                after_steps(opened(parent, span_id, opened_at, visitor), steps),
                dynamic_parent_of(parent),
                meta,
                service_name,
                now,
            )->Some_0;
            forall|j: int|
                0 <= j < published.1.len() ==> {
                    &&& (#[trigger] published.1[j]).parent_id == Some(published.0.id)
                    &&& published.1[j].trace_id == Some(published.0.trace_id)
                }
        }),
{
    let first = opened(parent, span_id, opened_at, visitor);
    let last = after_steps(first, steps);
    let trace_id = last.trace_ctx.unwrap().trace_id;
    lemma_steps_keep_identity(first, steps);
    lemma_events_stay_in_trace(first, steps, trace_id);
}

} // verus!
