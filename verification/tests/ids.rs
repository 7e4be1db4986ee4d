use tracing_otlp::id::{UUID_FIXED_MASK, UUID_V4_BITS};
use tracing_otlp::{SpanId, TraceId};

#[test]
fn ids_round_trip_through_their_carriers() {
    let t = TraceId(0x0123456789ABCDEF0123456789ABCDEF);
    assert_eq!(TraceId::from(u128::from(t)), t);
    assert_eq!(u128::from(TraceId::from(7u128)), 7u128);
    let s = SpanId(0x0102030405060708);
    assert_eq!(SpanId::from(u64::from(s)), s);
    assert_eq!(u64::from(SpanId::from(u64::MAX)), u64::MAX);
    assert_eq!(TraceId::from(u128::from(TraceId(u128::MAX))), TraceId(u128::MAX));
    assert_eq!(SpanId::from(u64::from(SpanId(0))), SpanId(0));
}

#[test]
fn ids_are_ordered_by_value() {
    assert!(SpanId(1) < SpanId(2));
    assert!(TraceId(u128::MAX) > TraceId(0));
    assert_eq!(SpanId(3), SpanId(3));
    assert_ne!(TraceId(3), TraceId(4));
    let copy = SpanId(5);
    let again = copy;
    assert_eq!(copy, again);
}

#[test]
fn fresh_trace_ids_are_random_uuids() {
    let a = TraceId::new();
    let b = TraceId::new();
    let c = TraceId::default();
    assert_ne!(a, b);
    assert_ne!(b, c);
    for id in [a, b, c] {
        assert_eq!(id.0 & UUID_FIXED_MASK, UUID_V4_BITS);
        assert_eq!((id.0 >> 76) & 0xf, 4);
        assert_eq!((id.0 >> 62) & 0x3, 2);
    }
}
