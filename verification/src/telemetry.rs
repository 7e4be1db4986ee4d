//! The telemetry sink: the capability to which completed records are
//! delivered.

use vstd::prelude::*;
use crate::trace::{Event, Span};
use crate::visitor::{FieldValue, Visit};

verus! {

/// The ability to publish events and spans to some backend.
///
/// Publication takes `&self` and must not block: slow work belongs on a
/// worker. A failure inside `report_span` or `report_event` stays inside;
/// nothing comes back to the instrumented code.
pub trait Telemetry {
    /// The accumulator that records the fields of spans and events.
    type Visitor: Visit;

    /// The view of every visitor that `mk_visitor` hands out. A sink states
    /// here what its fresh visitors hold; one that states nothing leaves it
    /// open.
    open spec fn fresh_visitor(&self) -> <Self::Visitor as View>::V {
        arbitrary()
    }

    /// A fresh visitor, which has recorded nothing yet.
    fn mk_visitor(&self) -> (visitor: Self::Visitor)
        ensures
            visitor@ == self.fresh_visitor(),
    ;

    /// Publishes one completed span with the events that were attached to
    /// it.
    fn report_span(&self, span: Span<Self::Visitor>, events: Vec<Event<Self::Visitor>>);

    /// Publishes one event that belongs to no span.
    fn report_event(&self, event: Event<Self::Visitor>);
}

/// A visitor that keeps nothing of the fields it is shown.
#[derive(Default, Debug, Clone, Copy)]
pub struct BlackholeVisitor;

impl View for BlackholeVisitor {
    type V = ();

    open spec fn view(&self) -> () {
        ()
    }
}

impl Visit for BlackholeVisitor {
    open spec fn recorded(acc: (), name: Seq<char>, value: FieldValue) -> () {
        ()
    }

    fn record_debug(&mut self, field: &str, rendered: &str) {
    }

    fn record_f64(&mut self, field: &str, bits: u64) {
    }

    fn record_i64(&mut self, field: &str, value: i64) {
    }

    fn record_bool(&mut self, field: &str, value: bool) {
    }

    fn record_str(&mut self, field: &str, value: &str) {
    }
}

/// A sink that publishes nothing.
#[derive(Debug, Clone, Copy)]
pub struct BlackholeTelemetry;

impl Default for BlackholeTelemetry {
    fn default() -> (sink: Self)
        ensures
            sink == BlackholeTelemetry,
    {
        BlackholeTelemetry
    }
}

impl Telemetry for BlackholeTelemetry {
    type Visitor = BlackholeVisitor;

    open spec fn fresh_visitor(&self) -> () {
        ()
    }

    fn mk_visitor(&self) -> (visitor: BlackholeVisitor) {
        BlackholeVisitor
    }

    fn report_span(&self, span: Span<BlackholeVisitor>, events: Vec<Event<BlackholeVisitor>>) {
    }

    fn report_event(&self, event: Event<BlackholeVisitor>) {
    }
}

} // verus!
