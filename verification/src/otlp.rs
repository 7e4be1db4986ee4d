//! The OTLP sink: completed records become OTLP span messages, which go
//! onto the channel that the export worker drains.

use std::io::Write;
use std::sync::mpsc::{Receiver, Sender};
use std::time::Duration;
use url::ParseError;
use vstd::bytes::{
    spec_u128_from_le_bytes, spec_u128_to_le_bytes, spec_u64_from_le_bytes, spec_u64_to_le_bytes,
    u128_to_le_bytes, u64_to_le_bytes,
};
use vstd::prelude::*;
use crate::endpoint::{trace_endpoint, trace_endpoint_text};
use crate::id::SpanId;
use crate::proto;
use crate::proto::{KeyValueView, Value};
use crate::sequence::{reversed, views};
use crate::telemetry::Telemetry;
use crate::time::{duration_nanos, system_time_to_unix_nanos, unix_nanos};
use crate::trace::{Event, EventRecord, Span, SpanRecord};
use crate::visitor::Visitor;
use crate::worker::{started, Worker};

verus! {

/// `std::sync::mpsc::Sender`, the sending half of a channel. Nothing inside
/// it is visible here.
#[verifier::external_type_specification]
#[verifier::external_body]
#[verifier::reject_recursive_types(T)]
pub struct ExSender<T>(Sender<T>);

/// `std::sync::mpsc::Receiver`, the receiving half of a channel. Nothing
/// inside it is visible here.
#[verifier::external_type_specification]
#[verifier::external_body]
#[verifier::reject_recursive_types(T)]
pub struct ExReceiver<T>(Receiver<T>);

/// Calls `std::sync::mpsc::channel`: a new unbounded channel, as its
/// sending and receiving halves.
#[verifier::external_body]
pub(crate) fn span_channel() -> (ends: (Sender<proto::Span>, Receiver<proto::Span>)) {
    std::sync::mpsc::channel()
}

/// Calls `std::sync::mpsc::Sender::send`, which never blocks, and says
/// whether the message was accepted. It is refused once the receiving half
/// has been dropped; nothing in the arguments shows whether it has been.
#[verifier::external_body]
pub(crate) fn channel_send(tx: &Sender<proto::Span>, message: proto::Span) -> (accepted: bool) {
    tx.send(message).is_ok()
}

/// Writes one line to the standard error stream with `std::io::Write` on
/// `std::io::stderr()`. A failure to write is ignored.
#[verifier::external_body]
pub(crate) fn diagnostic(line: &str) {
    let _ = writeln!(std::io::stderr(), "{}", line);
}

/// What the sink writes to the standard error stream when it exports zero
/// in place of a time before the Unix epoch.
pub const CLOCK_WARNING: &'static str = "Time went backwards while calculating OTLP timestamp";

/// The name that every OTLP span event gets.
pub const EVENT_NAME: &'static str = "event";

/// The OTLP span event that stands for an event.
pub open spec fn otlp_event_of(event: EventRecord<Seq<KeyValueView>>) -> proto::EventView {
    proto::EventView {
        time_unix_nano: unix_nanos(event.initialized_at),
        name: EVENT_NAME@,
        attributes: event.values,
        dropped_attributes_count: 0,
    }
}

/// The OTLP span events that stand for `events`, in order.
pub open spec fn otlp_events_of(events: Seq<EventRecord<Seq<KeyValueView>>>) -> Seq<
    proto::EventView,
> {
    Seq::new(events.len(), |i: int| otlp_event_of(events[i]))
}

/// The bytes of an optional parent: the identifier's eight bytes, least
/// significant first, or no bytes.
pub open spec fn parent_bytes(parent: Option<SpanId>) -> Seq<u8> {
    match parent {
        Some(p) => spec_u64_to_le_bytes(p.0),
        None => Seq::empty(),
    }
}

/// The OTLP span that stands for a completed span with its events.
/// Identifiers are written least significant byte first; kind, flags and
/// the dropped counts are zero; there are no links and no status.
pub open spec fn otlp_span_of(
    span: SpanRecord<Seq<KeyValueView>>,
    events: Seq<EventRecord<Seq<KeyValueView>>>,
) -> proto::SpanView {
    proto::SpanView {
        trace_id: spec_u128_to_le_bytes(span.trace_id.0),
        span_id: spec_u64_to_le_bytes(span.id.0),
        trace_state: Seq::empty(),
        parent_span_id: parent_bytes(span.parent_id),
        flags: 0,
        name: span.name,
        kind: 0,
        start_time_unix_nano: unix_nanos(span.initialized_at),
        end_time_unix_nano: unix_nanos(span.completed_at),
        attributes: span.values,
        dropped_attributes_count: 0,
        events: otlp_events_of(events),
        dropped_events_count: 0,
        links: Seq::empty(),
        dropped_links_count: 0,
        status: None,
    }
}

/// Whether a timestamp of the span or of one of its events lies before the
/// Unix epoch, so that zero is exported in its place.
pub open spec fn clock_went_backwards<A>(span: SpanRecord<A>, events: Seq<EventRecord<A>>) -> bool {
    ||| span.initialized_at.0 < 0
    ||| span.completed_at.0 < 0
    ||| exists|i: int| 0 <= i < events.len() && (#[trigger] events[i]).initialized_at.0 < 0
}

/// Converts one event to an OTLP span event.
pub fn otlp_event(event: Event<Visitor>) -> (message: proto::Event)
    ensures
        message@ == otlp_event_of(event@),
{
    proto::Event {
        time_unix_nano: system_time_to_unix_nanos(&event.initialized_at),
        name: EVENT_NAME.to_owned(),
        attributes: event.values.0,
        dropped_attributes_count: 0,
    }
}

/// Converts a completed span and its events to an OTLP span. Also says
/// whether a timestamp lay before the Unix epoch.
pub fn otlp_span(span: Span<Visitor>, events: Vec<Event<Visitor>>) -> (converted: (
    proto::Span,
    bool,
))
    ensures
        converted.0@ == otlp_span_of(span@, views(events@)),
        converted.1 == clock_went_backwards(span@, views(events@)),
{
    let ghost all = events@;
    let mut backwards = span.initialized_at.predates_epoch() || span.completed_at.predates_epoch();
    let mut rest = reversed(events);
    let mut messages: Vec<proto::Event> = Vec::new();
    while rest.len() > 0
        invariant
            rest@.len() + messages@.len() == all.len(),
            rest@ == all.reverse().take(rest@.len() as int),
            forall|j: int|
                0 <= j < messages@.len() ==> (#[trigger] messages@[j])@ == otlp_event_of(all[j]@),
            backwards == (span.initialized_at.0 < 0 || span.completed_at.0 < 0 || exists|j: int|
                0 <= j < messages@.len() && (#[trigger] all[j]).initialized_at.0 < 0),
        decreases rest@.len(),
    {
        let ghost done = messages@.len() as int;
        let next = rest.pop();
        match next {
            Some(event) => {
                assert(event == all[done]);
                if event.initialized_at.predates_epoch() {
                    backwards = true;
                }
                messages.push(otlp_event(event));
            },
            None => {},
        }
        proof {
            assert(rest@ =~= all.reverse().take(rest@.len() as int));
        }
    }
    proof {
        assert(views(messages@) =~= otlp_events_of(views(all)));
        assert(backwards == clock_went_backwards(span@, views(all))) by {
            if exists|j: int| 0 <= j < all.len() && (#[trigger] all[j]).initialized_at.0 < 0 {
                let j = choose|j: int| 0 <= j < all.len() && (#[trigger] all[j]).initialized_at.0 < 0;
                assert(views(all)[j].initialized_at.0 < 0);
            }
            if exists|i: int|
                0 <= i < views(all).len() && (#[trigger] views(all)[i]).initialized_at.0 < 0 {
                let i = choose|i: int|
                    0 <= i < views(all).len() && (#[trigger] views(all)[i]).initialized_at.0 < 0;
                assert(all[i].initialized_at.0 < 0);
            }
        }
    }
    let parent_span_id = match span.parent_id {
        Some(parent) => u64_to_le_bytes(parent.0),
        None => Vec::new(),
    };
    let message = proto::Span {
        trace_id: u128_to_le_bytes(span.trace_id.0),
        span_id: u64_to_le_bytes(span.id.0),
        trace_state: String::new(),
        parent_span_id,
        flags: 0,
        name: span.name,
        kind: 0,
        start_time_unix_nano: system_time_to_unix_nanos(&span.initialized_at),
        end_time_unix_nano: system_time_to_unix_nanos(&span.completed_at),
        attributes: span.values.0,
        dropped_attributes_count: 0,
        events: messages,
        dropped_events_count: 0,
        links: Vec::new(),
        dropped_links_count: 0,
        status: None,
    };
    proof {
        assert(message@.links =~= Seq::empty());
        assert(message@.parent_span_id =~= parent_bytes(span.parent_id));
    }
    (message, backwards)
}

/// The identifiers of an OTLP span decode, least significant byte first, to
/// the identifiers of the span it stands for, and the parent's bytes are
/// absent exactly if the span has no parent.
pub proof fn lemma_otlp_ids_round_trip(
    span: SpanRecord<Seq<KeyValueView>>,
    events: Seq<EventRecord<Seq<KeyValueView>>>,
)
    ensures
        otlp_span_of(span, events).trace_id.len() == 16,
        spec_u128_from_le_bytes(otlp_span_of(span, events).trace_id) == span.trace_id.0,
        otlp_span_of(span, events).span_id.len() == 8,
        spec_u64_from_le_bytes(otlp_span_of(span, events).span_id) == span.id.0,
        otlp_span_of(span, events).parent_span_id.len() == 0 <==> span.parent_id is None,
        span.parent_id matches Some(parent) ==> {
            &&& otlp_span_of(span, events).parent_span_id.len() == 8
            &&& spec_u64_from_le_bytes(otlp_span_of(span, events).parent_span_id) == parent.0
        },
{
    vstd::bytes::lemma_auto_spec_u128_to_from_le_bytes();
    vstd::bytes::lemma_auto_spec_u64_to_from_le_bytes();
}

/// The OTLP implementation of the telemetry sink. Completed spans are
/// converted and handed to the export worker over a channel; events that
/// belong to no span are not exported.
pub struct Otlp {
    tx: Sender<proto::Span>,
}

impl Otlp {
    /// Whether a span message with this view has been handed to the channel
    /// that the export worker drains: the hand-over has returned for it. The
    /// message is lost if the worker is gone by then.
    pub closed spec fn has_sent(&self, message: proto::SpanView) -> bool {
        exists|m: proto::Span, accepted: bool|
            #[trigger] call_ensures(channel_send, (&self.tx, m), accepted) && m@ == message
    }

    /// Whether this sink and `worker` hold the two halves of one channel:
    /// what the sink sends, the worker's caller receives on `worker.rx`.
    pub closed spec fn feeds(&self, worker: &Worker) -> bool {
        call_ensures(span_channel, (), (self.tx, worker.rx))
    }

    /// Whether the warning about a clock that went backwards has been
    /// written to the standard error stream.
    pub closed spec fn has_warned(&self) -> bool {
        call_ensures(diagnostic, (CLOCK_WARNING,), ())
    }

    /// A sink for the collector at `endpoint`, together with the worker that
    /// drains it. The worker posts to `/v1/traces` below `endpoint`; it is
    /// not running yet. Fails exactly if `endpoint` is not an absolute URL
    /// onto which that path can be joined.
    pub fn new(
        endpoint: &str,
        send_interval: Duration,
        resource_attributes: Vec<(String, Value)>,
        http_headers: Vec<(String, String)>,
    ) -> (made: Result<(Otlp, Worker), ParseError>)
        ensures
            match made {
                Ok((sink, worker)) => {
                    &&& trace_endpoint_text(endpoint@) == Ok::<Seq<char>, ParseError>(
                        worker@.endpoint,
                    )
                    &&& worker@ == started(
                        duration_nanos(send_interval),
                        worker@.endpoint,
                        views(resource_attributes@),
                        views(http_headers@),
                    )
                    &&& sink.feeds(&worker)
                },
                Err(e) => trace_endpoint_text(endpoint@) == Err::<Seq<char>, ParseError>(e),
            },
    {
        let (tx, rx) = span_channel();
        match trace_endpoint(endpoint) {
            Ok(endpoint_trace) => {
                let worker = Worker::new(
                    send_interval,
                    endpoint_trace,
                    rx,
                    resource_attributes,
                    http_headers,
                );
                Ok((Otlp { tx }, worker))
            },
            Err(e) => Err(e),
        }
    }
}

impl Telemetry for Otlp {
    type Visitor = Visitor;

    open spec fn fresh_visitor(&self) -> Seq<KeyValueView> {
        Seq::empty()
    }

    fn mk_visitor(&self) -> (visitor: Visitor) {
        Visitor::new()
    }

    fn report_span(&self, span: Span<Visitor>, events: Vec<Event<Visitor>>)
        ensures
            self.has_sent(otlp_span_of(span@, views(events@))),
            clock_went_backwards(span@, views(events@)) ==> self.has_warned(),
    {
        let (message, backwards) = otlp_span(span, events);
        if backwards {
            diagnostic(CLOCK_WARNING);
        }
        let ghost handed = message;
        let accepted = channel_send(&self.tx, message);
        proof {
            assert(call_ensures(channel_send, (&self.tx, handed), accepted));
        }
    }

    fn report_event(&self, event: Event<Visitor>) {
    }
}

} // verus!
