//! Configuration of the OTLP layer.

use std::time::Duration;
use url::ParseError;
use vstd::prelude::*;
use crate::endpoint::trace_endpoint_text;
use crate::id::SpanId;
use crate::otlp::Otlp;
use crate::proto::{Value, ValueView};
use crate::sequence::views;
use crate::telemetry_layer::TelemetryLayer;
use crate::time::duration_nanos;
use crate::worker::{started, Worker};

verus! {

/// The key of the resource attribute that names the service.
pub const SERVICE_NAME_KEY: &'static str = "service.name";

/// The send interval of a builder that was given none: one second.
pub const DEFAULT_SEND_INTERVAL_SECS: u64 = 1;

/// Builder for the OTLP layer: collects the settings of the layer and of
/// its export worker.
pub struct Builder {
    /// How long the worker collects spans before it sends them.
    pub send_interval: Duration,
    /// The attributes of the resource that describes this process.
    pub resource_attributes: Vec<(String, Value)>,
    /// The headers added to every export request.
    pub headers: Vec<(String, String)>,
}

/// The settings of a builder: the send interval in nanoseconds, and the
/// resource attributes and headers as sequences.
pub struct BuilderView {
    pub send_interval: nat,
    pub resource_attributes: Seq<(Seq<char>, ValueView)>,
    pub headers: Seq<(Seq<char>, Seq<char>)>,
}

impl View for Builder {
    type V = BuilderView;

    open spec fn view(&self) -> BuilderView {
        BuilderView {
            send_interval: duration_nanos(self.send_interval),
            resource_attributes: views(self.resource_attributes@),
            headers: views(self.headers@),
        }
    }
}

/// The settings of a builder that was given none: a send interval of one
/// second, no resource attributes and no headers.
pub open spec fn default_settings() -> BuilderView {
    BuilderView {
        send_interval: 1_000_000_000,
        resource_attributes: Seq::empty(),
        headers: Seq::empty(),
    }
}

impl Default for Builder {
    fn default() -> (builder: Self)
        ensures
            builder@ == default_settings(),
    {
        let builder = Builder {
            send_interval: Duration::from_secs(DEFAULT_SEND_INTERVAL_SECS),
            resource_attributes: Vec::new(),
            headers: Vec::new(),
        };
        proof {
            assert(builder@.resource_attributes =~= Seq::empty());
            assert(builder@.headers =~= Seq::empty());
        }
        builder
    }
}

impl Builder {
    /// A builder with the default settings.
    pub fn new() -> (builder: Builder)
        ensures
            builder@ == default_settings(),
    {
        Builder::default()
    }

    /// Sets the interval at which spans are sent to the collector.
    pub fn send_interval(self, interval: Duration) -> (builder: Self)
        ensures
            builder@ == (BuilderView { send_interval: duration_nanos(interval), ..self@ }),
    {
        let mut builder = self;
        builder.send_interval = interval;
        builder
    }

    /// Names this service: adds the resource attribute `service.name`.
    pub fn service_name(self, service_name: String) -> (builder: Self)
        ensures
            builder@ == (BuilderView {
                resource_attributes: self@.resource_attributes.push(
                    (SERVICE_NAME_KEY@, ValueView::StringValue(service_name@)),
                ),
                ..self@
            }),
    {
        self.resource_attribute(SERVICE_NAME_KEY.to_owned(), Value::StringValue(service_name))
    }

    /// Adds an attribute of the resource that describes this process, after
    /// those added before. A string, a boolean or an integer becomes a
    /// `Value` with `into`.
    pub fn resource_attribute(self, key: String, value: Value) -> (builder: Self)
        ensures
            builder@ == (BuilderView {
                resource_attributes: self@.resource_attributes.push((key@, value@)),
                ..self@
            }),
    {
        let mut builder = self;
        proof {
            crate::sequence::lemma_views_push(builder.resource_attributes@, (key, value));
        }
        builder.resource_attributes.push((key, value));
        builder
    }

    /// Sets the headers added to every export request, each as a name and
    /// a value. Headers set before are replaced.
    pub fn http_headers(self, headers: Vec<(String, String)>) -> (builder: Self)
        ensures
            builder@ == (BuilderView { headers: views(headers@), ..self@ }),
    {
        let mut builder = self;
        builder.headers = headers;
        builder
    }

    /// Builds the layer and its export worker for the collector at
    /// `endpoint`, which should be an HTTP URL. The layer delivers to an
    /// OTLP sink, carries an empty service name and promotes a native span
    /// identifier to the span identifier of the same value. The worker is
    /// not running yet. Fails exactly if `endpoint` is not an absolute URL
    /// onto which the path of the trace endpoint can be joined.
    pub fn build(self, endpoint: &str) -> (built: Result<
        (TelemetryLayer<Otlp, impl Fn(u64) -> SpanId>, Worker),
        ParseError,
    >)
        ensures
            match built {
                Ok((layer, worker)) => {
                    &&& trace_endpoint_text(endpoint@) == Ok::<Seq<char>, ParseError>(
                        worker@.endpoint,
                    )
                    &&& worker@ == started(
                        self@.send_interval,
                        worker@.endpoint,
                        self@.resource_attributes,
                        self@.headers,
                    )
                    &&& layer.sink().feeds(&worker)
                    &&& layer.service()@ == Seq::<char>::empty()
                    &&& forall|id: u64, promoted: SpanId|
                        layer.promotes(id, promoted) ==> promoted == SpanId(id)
                },
                Err(e) => trace_endpoint_text(endpoint@) == Err::<Seq<char>, ParseError>(e),
            },
    {
        match Otlp::new(endpoint, self.send_interval, self.resource_attributes, self.headers) {
            Ok((sink, worker)) => {
                let promote = |native: u64| -> (promoted: SpanId)
                    ensures
                        promoted == SpanId(native),
                    { SpanId(native) };
                proof {
                    reveal_strlit("");
                }
                Ok((TelemetryLayer::new("", sink, promote), worker))
            },
            Err(e) => Err(e),
        }
    }
}

} // verus!
