//! Distributed tracing over OTLP: span and trace identifiers, the per-span
//! scratch state of the span-lifecycle layer, the conversion of completed
//! spans into OTLP messages, and the batching decisions of the export worker.

pub mod builder;
pub mod endpoint;
pub mod id;
pub mod lifecycle;
pub mod otlp;
pub mod proto;
pub mod sequence;
pub mod telemetry;
pub mod telemetry_layer;
pub mod time;
pub mod trace;
pub mod visitor;
pub mod worker;

pub use builder::Builder;
pub use id::{SpanId, TraceId};
pub use otlp::Otlp;
pub use telemetry::{BlackholeTelemetry, BlackholeVisitor, Telemetry};
pub use telemetry_layer::TelemetryLayer;
pub use trace::{
    current_dist_trace_ctx, register_dist_tracing_root, Event, Span, TraceCtxError,
};
pub use visitor::Visitor;
