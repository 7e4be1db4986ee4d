//! The export worker: it buffers the spans that arrive on the channel and,
//! once per send interval, moves the buffer into one export request.
//!
//! The worker decides; its caller waits on the channel, posts the request
//! and tells the worker how that went.

use std::sync::mpsc::Receiver;
use std::time::{Duration, Instant};
use url::Url;
use vstd::prelude::*;
use crate::endpoint::url_text;
use crate::proto;
use crate::proto::{
    key_value, ExportTracePartialSuccess, ExportTraceServiceRequest,
    ExportTraceServiceRequestView, ExportTraceServiceResponse, KeyValue, KeyValueView, Resource,
    ResourceSpans, ResourceSpansView, ResourceView, ScopeSpans, ScopeSpansView, SpanView, Value,
    ValueView,
};
use crate::sequence::{reversed, views};
use crate::time::duration_nanos;

verus! {

/// The content type of an export request, and of an answer that carries an
/// export response.
pub const PROTOBUF_CONTENT_TYPE: &'static str = "application/x-protobuf";

/// The name of the header that carries the content type.
pub const CONTENT_TYPE_HEADER: &'static str = "Content-Type";

/// What waiting on the channel brought.
pub enum Received {
    /// A span arrived.
    Span(proto::Span),
    /// The time to the next send ran out.
    Timeout,
    /// Every sender is gone.
    Disconnected,
}

/// The view of a `Received`.
pub enum ReceivedView {
    Span(SpanView),
    Timeout,
    Disconnected,
}

impl View for Received {
    type V = ReceivedView;

    open spec fn view(&self) -> ReceivedView {
        match self {
            Received::Span(span) => ReceivedView::Span(span@),
            Received::Timeout => ReceivedView::Timeout,
            Received::Disconnected => ReceivedView::Disconnected,
        }
    }
}

/// What the worker's caller is to do next.
pub enum Action {
    /// Wait on the channel again, for at most the time to the next send.
    Wait,
    /// Post this request, then wait on the channel again.
    Send(ExportTraceServiceRequest),
    /// Leave the loop.
    Stop,
}

/// The view of an `Action`.
pub enum ActionView {
    Wait,
    Send(ExportTraceServiceRequestView),
    Stop,
}

impl View for Action {
    type V = ActionView;

    open spec fn view(&self) -> ActionView {
        match self {
            Action::Wait => ActionView::Wait,
            Action::Send(request) => ActionView::Send(request@),
            Action::Stop => ActionView::Stop,
        }
    }
}

/// The state of the export worker.
pub struct Worker {
    /// How long the worker collects spans before it sends them.
    pub send_interval: Duration,
    /// Where export requests are posted.
    pub endpoint_trace: Url,
    /// Describes this process in every request.
    pub resource: Resource,
    /// When the last send was due, in nanoseconds since the worker was made.
    pub last_send: u128,
    /// The headers that every request carries besides its content type.
    pub http_headers: Vec<(String, String)>,
    /// The spans received and not yet sent, oldest first.
    pub spans: Vec<proto::Span>,
    /// The receiving half of the span channel, on which the worker's caller
    /// waits.
    pub rx: Receiver<proto::Span>,
    /// When the worker was made.
    pub origin: Instant,
}

/// The view of a `Worker`: what its decisions depend on. The send interval
/// is in nanoseconds, the endpoint is the serialization of its URL.
pub struct WorkerView {
    pub send_interval: nat,
    pub endpoint: Seq<char>,
    pub resource: ResourceView,
    pub last_send: u128,
    pub http_headers: Seq<(Seq<char>, Seq<char>)>,
    pub spans: Seq<SpanView>,
}

impl View for Worker {
    type V = WorkerView;

    open spec fn view(&self) -> WorkerView {
        WorkerView {
            send_interval: duration_nanos(self.send_interval),
            endpoint: url_text(self.endpoint_trace),
            resource: self.resource@,
            last_send: self.last_send,
            http_headers: views(self.http_headers@),
            spans: views(self.spans@),
        }
    }
}

/// The attributes of the resource that describes a process with these
/// configured attributes.
pub open spec fn resource_attributes_of(configured: Seq<(Seq<char>, ValueView)>) -> Seq<
    KeyValueView,
> {
    Seq::new(configured.len(), |i: int| key_value(configured[i].0, configured[i].1))
}

/// The state of a worker that has just been made.
pub open spec fn started(
    send_interval: nat,
    endpoint: Seq<char>,
    resource_attributes: Seq<(Seq<char>, ValueView)>,
    http_headers: Seq<(Seq<char>, Seq<char>)>,
) -> WorkerView {
    WorkerView {
        send_interval,
        endpoint,
        resource: ResourceView {
            attributes: resource_attributes_of(resource_attributes),
            dropped_attributes_count: 0,
        },
        last_send: 0,
        http_headers,
        spans: Seq::empty(),
    }
}

/// The time that has passed at `now` since the last send. A reading that is
/// earlier than the last send counts as the last send.
pub open spec fn elapsed(worker: WorkerView, now: u128) -> nat {
    if now >= worker.last_send {
        (now - worker.last_send) as nat
    } else {
        0
    }
}

/// Whether a send is due at `now`: the send interval has passed since the
/// last one.
pub open spec fn send_due(worker: WorkerView, now: u128) -> bool {
    elapsed(worker, now) >= worker.send_interval
}

/// How long to wait on the channel at `now`: the rest of the send interval,
/// and not at all once it has passed.
pub open spec fn time_to_next_send(worker: WorkerView, now: u128) -> nat {
    if send_due(worker, now) {
        0
    } else {
        (worker.send_interval - elapsed(worker, now)) as nat
    }
}

/// The one request that carries `spans` for `resource`: one group for the
/// resource, in it one group without a scope, in it the spans in order; both
/// schema URLs are empty.
pub open spec fn export_request_of(
    resource: ResourceView,
    spans: Seq<SpanView>,
) -> ExportTraceServiceRequestView {
    ExportTraceServiceRequestView {
        resource_spans: seq![
            ResourceSpansView {
                resource: Some(resource),
                scope_spans: seq![
                    ScopeSpansView { scope: None, spans, schema_url: Seq::empty() },
                ],
                schema_url: Seq::empty(),
            },
        ],
    }
}

/// The spans that a failed request gives back: those of the first scope of
/// its first resource.
pub open spec fn batch_of(request: ExportTraceServiceRequestView) -> Seq<SpanView> {
    if request.resource_spans.len() > 0 && request.resource_spans[0].scope_spans.len() > 0 {
        request.resource_spans[0].scope_spans[0].spans
    } else {
        Seq::empty()
    }
}

/// The buffer once what was received has been taken in.
pub open spec fn taken_in(worker: WorkerView, received: ReceivedView) -> Seq<SpanView> {
    match received {
        ReceivedView::Span(span) => worker.spans.push(span),
        _ => worker.spans,
    }
}

/// One turn of the worker: the state it is left in and what its caller is
/// to do, given what waiting on the channel brought and the time after the
/// wait.
pub open spec fn stepped(worker: WorkerView, received: ReceivedView, now: u128) -> (
    WorkerView,
    ActionView,
) {
    if received is Disconnected {
        (worker, ActionView::Stop)
    } else if !send_due(worker, now) {
        (WorkerView { spans: taken_in(worker, received), ..worker }, ActionView::Wait)
    } else if taken_in(worker, received).len() == 0 {
        (WorkerView { last_send: now, ..worker }, ActionView::Wait)
    } else {
        (
            WorkerView { last_send: now, spans: Seq::empty(), ..worker },
            ActionView::Send(export_request_of(worker.resource, taken_in(worker, received))),
        )
    }
}

/// The state after a request could not be delivered: its spans are back in
/// the buffer, ahead of any that arrived since.
pub open spec fn restored(worker: WorkerView, request: ExportTraceServiceRequestView) -> WorkerView {
    WorkerView { spans: batch_of(request) + worker.spans, ..worker }
}

/// The headers of an export request: the content type, then the configured
/// headers in order.
pub open spec fn request_headers_of(configured: Seq<(Seq<char>, Seq<char>)>) -> Seq<
    (Seq<char>, Seq<char>),
> {
    seq![(CONTENT_TYPE_HEADER@, PROTOBUF_CONTENT_TYPE@)] + configured
}

/// Whether a collector's partial success reports a failure: it names an
/// error or it rejected spans.
pub open spec fn is_rejection(partial: ExportTracePartialSuccess) -> bool {
    partial.error_message@.len() > 0 || partial.rejected_spans != 0
}

/// The resource that describes a process with these configured attributes.
pub fn resource_of(configured: Vec<(String, Value)>) -> (resource: Resource)
    ensures
        resource@ == (ResourceView {
            attributes: resource_attributes_of(views(configured@)),
            dropped_attributes_count: 0,
        }),
{
    let ghost all = configured@;
    let mut rest = reversed(configured);
    let mut attributes: Vec<KeyValue> = Vec::new();
    while rest.len() > 0
        invariant
            rest@.len() + attributes@.len() == all.len(),
            rest@ == all.reverse().take(rest@.len() as int),
            forall|j: int|
                0 <= j < attributes@.len() ==> (#[trigger] attributes@[j])@ == key_value(
                    all[j].0@,
                    all[j].1@,
                ),
        decreases rest@.len(),
    {
        let ghost done = attributes@.len() as int;
        let next = rest.pop();
        match next {
            Some((key, value)) => {
                assert((key, value) == all[done]);
                attributes.push(KeyValue::new(key, value));
            },
            None => {},
        }
        proof {
            assert(rest@ =~= all.reverse().take(rest@.len() as int));
        }
    }
    proof {
        assert(views(attributes@) =~= resource_attributes_of(views(all)));
    }
    Resource { attributes, dropped_attributes_count: 0 }
}

/// The one request that carries `spans` for `resource`.
pub fn export_request(resource: Resource, spans: Vec<proto::Span>) -> (request:
    ExportTraceServiceRequest)
    ensures
        request@ == export_request_of(resource@, views(spans@)),
{
    let scope = ScopeSpans { scope: None, spans, schema_url: String::new() };
    let mut scope_spans: Vec<ScopeSpans> = Vec::new();
    scope_spans.push(scope);
    let group = ResourceSpans { resource: Some(resource), scope_spans, schema_url: String::new() };
    let mut resource_spans: Vec<ResourceSpans> = Vec::new();
    resource_spans.push(group);
    let request = ExportTraceServiceRequest { resource_spans };
    proof {
        assert(group@.scope_spans =~= seq![
            ScopeSpansView { scope: None, spans: views(spans@), schema_url: Seq::empty() },
        ]);
        assert(request@.resource_spans =~= export_request_of(
            resource@,
            views(spans@),
        ).resource_spans);
    }
    request
}

/// Whether an answer with this content type carries an export response.
pub fn is_protobuf_response(content_type: Option<&str>) -> (protobuf: bool)
    ensures
        protobuf == (content_type matches Some(t) && t@ == PROTOBUF_CONTENT_TYPE@),
{
    match content_type {
        Some(t) => {
            let given: String = t.to_owned();
            let wanted: String = PROTOBUF_CONTENT_TYPE.to_owned();
            given == wanted
        },
        None => false,
    }
}

/// What a collector's answer reports as failed, if anything: its partial
/// success, where that names an error or rejected spans.
pub fn rejection(response: ExportTraceServiceResponse) -> (failure: Option<
    ExportTracePartialSuccess,
>)
    ensures
        failure == (match response.partial_success {
            Some(partial) => if is_rejection(partial) {
                Some(partial)
            } else {
                None
            },
            None => None,
        }),
{
    match response.partial_success {
        Some(partial) => {
            if partial.error_message.as_str().unicode_len() > 0 || partial.rejected_spans != 0 {
                Some(partial)
            } else {
                None
            }
        },
        None => None,
    }
}

impl Worker {
    /// A worker that has sent nothing yet. Its clock starts now.
    pub fn new(
        send_interval: Duration,
        endpoint_trace: Url,
        rx: Receiver<proto::Span>,
        resource_attributes: Vec<(String, Value)>,
        http_headers: Vec<(String, String)>,
    ) -> (worker: Self)
        ensures
            worker@ == started(
                duration_nanos(send_interval),
                url_text(endpoint_trace),
                views(resource_attributes@),
                views(http_headers@),
            ),
            worker.send_interval == send_interval,
            worker.endpoint_trace == endpoint_trace,
            worker.rx == rx,
    {
        let worker = Worker {
            send_interval,
            endpoint_trace,
            resource: resource_of(resource_attributes),
            last_send: 0,
            http_headers,
            spans: Vec::new(),
            rx,
            origin: Instant::now(),
        };
        proof {
            assert(worker@.spans =~= Seq::empty());
        }
        worker
    }

    /// Whether `nanos` is a reading of the worker's clock: the length, in
    /// nanoseconds, of a duration that `Instant::elapsed` has returned for
    /// the instant at which the worker was made.
    pub open spec fn is_reading(&self, nanos: u128) -> bool {
        exists|passed: Duration|
            #[trigger] call_ensures(Instant::elapsed, (&self.origin,), passed) && nanos
                == duration_nanos(passed)
    }

    /// The time that has passed since the worker was made, in nanoseconds.
    /// Which time that is, only the clock knows.
    pub fn now(&self) -> (nanos: u128)
        ensures
            self.is_reading(nanos),
    {
        let passed = self.origin.elapsed();
        proof {
            assert(call_ensures(Instant::elapsed, (&self.origin,), passed));
        }
        passed.as_nanos()
    }

    /// Whether a send is due at `now`.
    pub fn send_is_due(&self, now: u128) -> (due: bool)
        ensures
            due == send_due(self@, now),
    {
        let interval: u128 = self.send_interval.as_nanos();
        if now >= self.last_send {
            now - self.last_send >= interval
        } else {
            interval == 0
        }
    }

    /// How long to wait on the channel at `now`, in nanoseconds: until the
    /// send interval has passed since the last send.
    pub fn duration_to_next_send(&self, now: u128) -> (nanos: u128)
        ensures
            nanos == time_to_next_send(self@, now),
            now >= self.last_send ==> nanos == (if self.last_send + self@.send_interval >= now {
                self.last_send + self@.send_interval - now
            } else {
                0
            }),
    {
        let interval: u128 = self.send_interval.as_nanos();
        if now >= self.last_send {
            let passed: u128 = now - self.last_send;
            if passed >= interval {
                0
            } else {
                interval - passed
            }
        } else {
            interval
        }
    }

    /// One turn: takes in what waiting on the channel brought, and if a send
    /// is due at `now`, moves the buffer into one request. The spans of the
    /// request are in the order in which they arrived.
    pub fn step(&mut self, received: Received, now: u128) -> (action: Action)
        ensures
            (final(self)@, action@) == stepped(old(self)@, received@, now),
            final(self).rx == old(self).rx,
            final(self).origin == old(self).origin,
            final(self).endpoint_trace == old(self).endpoint_trace,
            final(self).send_interval == old(self).send_interval,
    {
        match received {
            Received::Disconnected => {
                return Action::Stop;
            },
            Received::Span(span) => {
                proof {
                    crate::sequence::lemma_views_push(self.spans@, span);
                }
                self.spans.push(span);
            },
            Received::Timeout => {},
        }
        if self.send_is_due(now) {
            self.last_send = now;
            if self.spans.len() == 0 {
                proof {
                    assert(self@.spans =~= Seq::empty());
                }
                Action::Wait
            } else {
                let mut batch: Vec<proto::Span> = Vec::new();
                core::mem::swap(&mut batch, &mut self.spans);
                proof {
                    assert(self@.spans =~= Seq::empty());
                }
                Action::Send(export_request(self.resource.duplicate(), batch))
            }
        } else {
            Action::Wait
        }
    }

    /// A request could not be delivered: its spans go back into the buffer,
    /// ahead of any that arrived since, and are sent again with the next
    /// request.
    pub fn send_failed(&mut self, request: ExportTraceServiceRequest)
        ensures
            final(self)@ == restored(old(self)@, request@),
            final(self).rx == old(self).rx,
            final(self).origin == old(self).origin,
            final(self).endpoint_trace == old(self).endpoint_trace,
            final(self).send_interval == old(self).send_interval,
    {
        let mut groups = request.resource_spans;
        if groups.len() > 0 {
            let group = groups.remove(0);
            let mut scopes = group.scope_spans;
            if scopes.len() > 0 {
                let scope = scopes.remove(0);
                let mut batch = scope.spans;
                proof {
                    assert(views(batch@ + self.spans@) =~= views(batch@) + views(self.spans@));
                }
                batch.append(&mut self.spans);
                self.spans = batch;
            } else {
                proof {
                    assert(Seq::<SpanView>::empty() + self@.spans =~= self@.spans);
                }
            }
        } else {
            proof {
                assert(Seq::<SpanView>::empty() + self@.spans =~= self@.spans);
            }
        }
    }

    /// The headers of every export request: the content type, then the
    /// configured headers in order.
    pub fn request_headers(&self) -> (headers: Vec<(String, String)>)
        ensures
            views(headers@) == request_headers_of(self@.http_headers),
    {
        let mut headers: Vec<(String, String)> = Vec::new();
        headers.push((CONTENT_TYPE_HEADER.to_owned(), PROTOBUF_CONTENT_TYPE.to_owned()));
        let mut i: usize = 0;
        while i < self.http_headers.len()
            invariant
                i <= self.http_headers.len(),
                headers@.len() == i + 1,
                headers@[0]@ == (CONTENT_TYPE_HEADER@, PROTOBUF_CONTENT_TYPE@),
                forall|j: int|
                    1 <= j <= i ==> (#[trigger] headers@[j])@ == self.http_headers@[j - 1]@,
            decreases self.http_headers.len() - i,
        {
            let name = self.http_headers[i].0.clone();
            let value = self.http_headers[i].1.clone();
            headers.push((name, value));
            i = i + 1;
        }
        proof {
            let wanted = request_headers_of(self@.http_headers);
            assert(wanted.len() == headers@.len());
            assert forall|k: int| 0 <= k < wanted.len() implies views(headers@)[k] == wanted[k] by {
                if k > 0 {
                    assert(wanted[k] == self@.http_headers[k - 1]);
                    assert(headers@[k]@ == self.http_headers@[k - 1]@);
                }
            }
            assert(views(headers@) =~= wanted);
        }
        headers
    }
}

/// A request that could not be delivered leaves nothing behind: once its
/// spans are restored, the buffer holds what it held when the request was
/// made.
pub proof fn lemma_failed_send_loses_nothing(worker: WorkerView, received: ReceivedView, now: u128)
    requires
        stepped(worker, received, now).1 is Send,
    ensures
        restored(
            stepped(worker, received, now).0,
            stepped(worker, received, now).1->Send_0,
        ).spans == taken_in(worker, received),
        stepped(worker, received, now).1->Send_0 == export_request_of(
            worker.resource,
            taken_in(worker, received),
        ),
{
    let request = stepped(worker, received, now).1->Send_0;
    assert(batch_of(request) == taken_in(worker, received));
    assert(batch_of(request) + Seq::<SpanView>::empty() =~= batch_of(request));
}

/// What one wait on the channel brought, and the time after the wait.
pub struct Turn {
    pub received: ReceivedView,
    pub now: u128,
}

/// The state of the worker after a sequence of turns.
pub open spec fn after_turns(worker: WorkerView, turns: Seq<Turn>) -> WorkerView
    decreases turns.len(),
{
    if turns.len() == 0 {
        worker
    } else {
        stepped(after_turns(worker, turns.drop_last()), turns.last().received, turns.last().now).0
    }
}

/// The spans of the requests that the worker made during a sequence of
/// turns, in the order of the requests.
pub open spec fn sent_in_turns(worker: WorkerView, turns: Seq<Turn>) -> Seq<SpanView>
    decreases turns.len(),
{
    if turns.len() == 0 {
        Seq::empty()
    } else {
        let before = after_turns(worker, turns.drop_last());
        sent_in_turns(worker, turns.drop_last()) + (match stepped(
            before,
            turns.last().received,
            turns.last().now,
        ).1 {
            ActionView::Send(request) => batch_of(request),
            _ => Seq::empty(),
        })
    }
}

/// The spans that arrived during a sequence of turns, in order of arrival.
pub open spec fn arrived_in_turns(turns: Seq<Turn>) -> Seq<SpanView>
    decreases turns.len(),
{
    if turns.len() == 0 {
        Seq::empty()
    } else {
        match turns.last().received {
            ReceivedView::Span(span) => arrived_in_turns(turns.drop_last()).push(span),
            _ => arrived_in_turns(turns.drop_last()),
        }
    }
}

/// While the channel stays open, the worker neither loses a span nor sends
/// one twice nor changes their order: the spans of its requests, followed by
/// the spans still in its buffer, are the spans it held at first followed by
/// the spans that arrived, in order of arrival.
pub proof fn lemma_spans_are_sent_in_arrival_order(worker: WorkerView, turns: Seq<Turn>)
    requires
        forall|i: int| 0 <= i < turns.len() ==> !((#[trigger] turns[i]).received is Disconnected),
    ensures
        sent_in_turns(worker, turns) + after_turns(worker, turns).spans == worker.spans
            + arrived_in_turns(turns),
    decreases turns.len(),
{
    if turns.len() == 0 {
        assert(Seq::<SpanView>::empty() + worker.spans =~= worker.spans + Seq::<SpanView>::empty());
    } else {
        let init = turns.drop_last();
        let last = turns.last();
        assert forall|i: int| 0 <= i < init.len() implies !((#[trigger] init[i]).received
            is Disconnected) by {
            assert(init[i] == turns[i]);
        }
        lemma_spans_are_sent_in_arrival_order(worker, init);
        assert(last == turns[turns.len() - 1]);
        let before = after_turns(worker, init);
        let sent = sent_in_turns(worker, init);
        let taken = taken_in(before, last.received);
        assert(sent + taken =~= worker.spans + arrived_in_turns(turns)) by {
            match last.received {
                ReceivedView::Span(span) => {
                    assert(sent + before.spans.push(span) =~= (sent + before.spans).push(span));
                },
                _ => {},
            }
        }
        let after = stepped(before, last.received, last.now);
        match after.1 {
            ActionView::Send(request) => {
                assert(batch_of(request) == taken);
                assert((sent + taken) + Seq::<SpanView>::empty() =~= sent + taken);
            },
            _ => {
                assert(after.0.spans == taken);
                assert((sent + Seq::<SpanView>::empty()) + taken =~= sent + taken);
            },
        }
    }
}

} // verus!
