//! Field visitors: accumulators of the typed values that instrumented code
//! records on spans and events.

use vstd::prelude::*;
use crate::proto::{key_value, KeyValue, KeyValueView, Value, ValueView};
use crate::sequence::views;

verus! {

/// A recorded value as contracts speak of it, one variant per kind that a
/// visitor accepts. A double is its IEEE-754 bit pattern; `Debug` holds the
/// debug rendering of a value of any other type.
pub enum FieldValue {
    Bool(bool),
    I64(i64),
    F64(u64),
    Str(Seq<char>),
    Debug(Seq<char>),
}

/// A recorded value.
#[derive(Debug, Clone)]
pub enum Recorded {
    Bool(bool),
    I64(i64),
    /// The bit pattern of a 64-bit IEEE-754 number.
    F64(u64),
    Str(String),
    /// The debug rendering of a value of any other type.
    Debug(String),
}

impl View for Recorded {
    type V = FieldValue;

    open spec fn view(&self) -> FieldValue {
        match self {
            Recorded::Bool(b) => FieldValue::Bool(*b),
            Recorded::I64(i) => FieldValue::I64(*i),
            Recorded::F64(bits) => FieldValue::F64(*bits),
            Recorded::Str(s) => FieldValue::Str(s@),
            Recorded::Debug(s) => FieldValue::Debug(s@),
        }
    }
}

/// One recorded field: its name and its value.
#[derive(Debug, Clone)]
pub struct Field {
    pub name: String,
    pub value: Recorded,
}

/// The view of a `Field`.
pub struct FieldView {
    pub name: Seq<char>,
    pub value: FieldValue,
}

impl View for Field {
    type V = FieldView;

    open spec fn view(&self) -> FieldView {
        FieldView { name: self.name@, value: self.value@ }
    }
}

/// A mutable accumulator of recorded fields, with one operation per kind of
/// value. What an accumulator keeps of a field is its own affair: `recorded`
/// names it, and every operation leaves the accumulator as `recorded` says.
pub trait Visit: View {
    /// The accumulator's view once one more field has been recorded.
    spec fn recorded(acc: Self::V, name: Seq<char>, value: FieldValue) -> Self::V;

    /// Records the debug rendering of a value that has no kind of its own.
    fn record_debug(&mut self, field: &str, rendered: &str)
        ensures
            final(self)@ == Self::recorded(old(self)@, field@, FieldValue::Debug(rendered@)),
    ;

    /// Records a double, given as its bit pattern.
    fn record_f64(&mut self, field: &str, bits: u64)
        ensures
            final(self)@ == Self::recorded(old(self)@, field@, FieldValue::F64(bits)),
    ;

    /// Records a signed integer.
    fn record_i64(&mut self, field: &str, value: i64)
        ensures
            final(self)@ == Self::recorded(old(self)@, field@, FieldValue::I64(value)),
    ;

    /// Records a boolean.
    fn record_bool(&mut self, field: &str, value: bool)
        ensures
            final(self)@ == Self::recorded(old(self)@, field@, FieldValue::Bool(value)),
    ;

    /// Records a string.
    fn record_str(&mut self, field: &str, value: &str)
        ensures
            final(self)@ == Self::recorded(old(self)@, field@, FieldValue::Str(value@)),
    ;
}

/// The accumulator's view once `fields` have been recorded in order.
pub open spec fn record_fields<V: Visit>(acc: V::V, fields: Seq<FieldView>) -> V::V
    decreases fields.len(),
{
    if fields.len() == 0 {
        acc
    } else {
        V::recorded(
            record_fields::<V>(acc, fields.drop_last()),
            fields.last().name,
            fields.last().value,
        )
    }
}

/// Hands one field to the operation of its kind.
pub fn record_field<V: Visit>(visitor: &mut V, field: &Field)
    ensures
        final(visitor)@ == V::recorded(old(visitor)@, field@.name, field@.value),
{
    match &field.value {
        Recorded::Bool(b) => visitor.record_bool(field.name.as_str(), *b),
        Recorded::I64(i) => visitor.record_i64(field.name.as_str(), *i),
        Recorded::F64(bits) => visitor.record_f64(field.name.as_str(), *bits),
        Recorded::Str(s) => visitor.record_str(field.name.as_str(), s.as_str()),
        Recorded::Debug(s) => visitor.record_debug(field.name.as_str(), s.as_str()),
    }
}

/// Hands `fields` to `visitor`, first to last.
pub fn record_all<V: Visit>(visitor: &mut V, fields: &Vec<Field>)
    ensures
        final(visitor)@ == record_fields::<V>(old(visitor)@, views(fields@)),
{
    let ghost start = visitor@;
    let mut i: usize = 0;
    while i < fields.len()
        invariant
            i <= fields.len(),
            visitor@ == record_fields::<V>(start, views(fields@).take(i as int)),
        decreases fields.len() - i,
    {
        record_field(visitor, &fields[i]);
        proof {
            let done = views(fields@).take(i as int + 1);
            assert(done.drop_last() =~= views(fields@).take(i as int));
            assert(done.last() == fields@[i as int]@);
        }
        i = i + 1;
    }
    proof {
        assert(views(fields@).take(i as int) =~= views(fields@));
    }
}

/// The OTLP value that stands for a recorded value: strings and debug
/// renderings both become string values.
pub open spec fn attribute_value(value: FieldValue) -> ValueView {
    match value {
        FieldValue::Bool(b) => ValueView::BoolValue(b),
        FieldValue::I64(i) => ValueView::IntValue(i),
        FieldValue::F64(bits) => ValueView::DoubleValue(bits),
        FieldValue::Str(s) => ValueView::StringValue(s),
        FieldValue::Debug(s) => ValueView::StringValue(s),
    }
}

/// The visitor of the OTLP backend: the list of attributes recorded so far.
/// Insertion order is kept and a key may occur more than once.
#[derive(Default, Clone, Debug)]
pub struct Visitor(pub Vec<KeyValue>);

impl View for Visitor {
    type V = Seq<KeyValueView>;

    open spec fn view(&self) -> Seq<KeyValueView> {
        views(self.0@)
    }
}

impl Visitor {
    /// A visitor that has recorded nothing.
    pub fn new() -> (v: Self)
        ensures
            v@ == Seq::<KeyValueView>::empty(),
    {
        let v = Visitor(Vec::new());
        proof {
            crate::sequence::lemma_views_empty::<KeyValue>();
        }
        v
    }

    /// Appends one attribute.
    fn push(&mut self, key: &str, value: Value)
        ensures
            final(self)@ == old(self)@.push(key_value(key@, value@)),
    {
        let kv = KeyValue::new(key.to_owned(), value);
        proof {
            crate::sequence::lemma_views_push(self.0@, kv);
        }
        self.0.push(kv);
    }
}

impl Visit for Visitor {
    open spec fn recorded(acc: Seq<KeyValueView>, name: Seq<char>, value: FieldValue) -> Seq<
        KeyValueView,
    > {
        acc.push(key_value(name, attribute_value(value)))
    }

    fn record_debug(&mut self, field: &str, rendered: &str) {
        self.push(field, Value::StringValue(rendered.to_owned()));
    }

    fn record_f64(&mut self, field: &str, bits: u64) {
        self.push(field, Value::DoubleValue(bits));
    }

    fn record_i64(&mut self, field: &str, value: i64) {
        self.push(field, Value::IntValue(value));
    }

    fn record_bool(&mut self, field: &str, value: bool) {
        self.push(field, Value::BoolValue(value));
    }

    fn record_str(&mut self, field: &str, value: &str) {
        self.push(field, Value::StringValue(value.to_owned()));
    }
}

} // verus!
