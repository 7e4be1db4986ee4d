//! Span and trace identifiers.

use vstd::prelude::*;
use vstd::std_specs::convert::FromSpec;

verus! {

/// Unique span identifier: an opaque 64-bit value.
#[derive(Debug, Clone, Copy, PartialEq, Eq, Structural, PartialOrd, Ord, Hash)]
pub struct SpanId(pub u64);

/// Identifies one distributed trace: an opaque 128-bit value.
#[derive(Debug, Clone, Copy, PartialEq, Eq, Structural, PartialOrd, Ord, Hash)]
pub struct TraceId(pub u128);

impl From<u64> for SpanId {
    fn from(value: u64) -> (id: Self) {
        SpanId(value)
    }
}

impl vstd::std_specs::convert::FromSpecImpl<u64> for SpanId {
    open spec fn obeys_from_spec() -> bool {
        true
    }

    open spec fn from_spec(value: u64) -> Self {
        SpanId(value)
    }
}

impl From<SpanId> for u64 {
    fn from(value: SpanId) -> (raw: u64) {
        value.0
    }
}

impl vstd::std_specs::convert::FromSpecImpl<SpanId> for u64 {
    open spec fn obeys_from_spec() -> bool {
        true
    }

    open spec fn from_spec(value: SpanId) -> u64 {
        value.0
    }
}

impl From<u128> for TraceId {
    fn from(value: u128) -> (id: Self) {
        TraceId(value)
    }
}

impl vstd::std_specs::convert::FromSpecImpl<u128> for TraceId {
    open spec fn obeys_from_spec() -> bool {
        true
    }

    open spec fn from_spec(value: u128) -> Self {
        TraceId(value)
    }
}

impl From<TraceId> for u128 {
    fn from(value: TraceId) -> (raw: u128) {
        value.0
    }
}

impl vstd::std_specs::convert::FromSpecImpl<TraceId> for u128 {
    open spec fn obeys_from_spec() -> bool {
        true
    }

    open spec fn from_spec(value: TraceId) -> u128 {
        value.0
    }
}

/// The bits of a 128-bit identifier that hold the UUID version and variant.
pub const UUID_FIXED_MASK: u128 = 0x0000_0000_0000_f000_c000_0000_0000_0000;

/// What those bits hold in a random (version 4, RFC 4122) UUID.
pub const UUID_V4_BITS: u128 = 0x0000_0000_0000_4000_8000_0000_0000_0000;

/// Whether `raw` is laid out as a version-4 UUID: version nibble 4, variant
/// bits `10`, and the other 122 bits free.
pub open spec fn is_uuid_v4(raw: u128) -> bool {
    raw & UUID_FIXED_MASK == UUID_V4_BITS
}

/// Calls `uuid::Uuid::new_v4` and `Uuid::as_u128`.
///
/// The crate masks 128 bits of operating-system randomness so that the
/// version and variant fields read "random, RFC 4122", and `as_u128` packs
/// the bytes big-endian, so those fields sit at fixed positions of the
/// result. Nothing else is claimed of the value. The crate panics if the
/// operating system cannot supply random bytes.
#[verifier::external_body]
fn random_uuid_v4() -> (raw: u128)
    ensures
        is_uuid_v4(raw),
{
    uuid::Uuid::new_v4().as_u128()
}

impl TraceId {
    /// A fresh identifier drawn from 122 random bits.
    pub fn new() -> (id: Self)
        ensures
            is_uuid_v4(id.0),
    {
        TraceId(random_uuid_v4())
    }
}

impl Default for TraceId {
    fn default() -> (id: Self)
        ensures
            is_uuid_v4(id.0),
    {
        TraceId::new()
    }
}

/// A trace identifier survives the round trip through its integer carrier.
pub proof fn lemma_trace_id_round_trip(t: TraceId)
    ensures
        <TraceId as FromSpec<u128>>::from_spec(<u128 as FromSpec<TraceId>>::from_spec(t)) == t,
{
}

/// A span identifier survives the round trip through its integer carrier.
pub proof fn lemma_span_id_round_trip(s: SpanId)
    ensures
        <SpanId as FromSpec<u64>>::from_spec(<u64 as FromSpec<SpanId>>::from_spec(s)) == s,
{
}

/// An integer survives the round trip through either identifier type.
pub proof fn lemma_carrier_round_trip(raw64: u64, raw128: u128)
    ensures
        <u64 as FromSpec<SpanId>>::from_spec(<SpanId as FromSpec<u64>>::from_spec(raw64)) == raw64,
        <u128 as FromSpec<TraceId>>::from_spec(<TraceId as FromSpec<u128>>::from_spec(raw128)) == raw128,
{
}

} // verus!
