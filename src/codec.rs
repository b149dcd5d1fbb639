//! The trace-context codec: the context of a span is written into a message
//! as a W3C `traceparent` value and read back, at the next stage, into the
//! parent handle of that stage's span. The text format itself is the one of
//! OpenTelemetry's `TraceContextPropagator`, which both directions call.
use vstd::prelude::*;
use opentelemetry::propagation::TextMapPropagator;
use opentelemetry::sdk::propagation::TraceContextPropagator;
use opentelemetry::trace::{SpanContext, SpanId, TraceContextExt, TraceFlags, TraceId, TraceState};
use opentelemetry::Context;
use std::collections::HashMap;

verus! {

/// A position in a distributed trace.
#[derive(Clone, Copy, Debug, PartialEq, Eq, Structural)]
pub struct TraceContext {
    pub trace_id: u128,
    pub span_id: u64,
    pub flags: u8,
}

impl TraceContext {
    /// A context that can be propagated: neither id is all zeros.
    pub open spec fn is_valid(self) -> bool {
        self.trace_id != 0 && self.span_id != 0
    }

    /// The sampled bit of the flags.
    pub open spec fn sampled_spec(self) -> bool {
        self.flags % 2 == 1
    }

    /// The context as it travels: the flags keep the sampled bit alone.
    pub open spec fn propagated(self) -> TraceContext {
        TraceContext { flags: (self.flags % 2) as u8, ..self }
    }

    pub fn is_valid_context(&self) -> (r: bool)
        ensures
            r == self.is_valid(),
    {
        self.trace_id != 0 && self.span_id != 0
    }

    pub fn is_sampled(&self) -> (r: bool)
        ensures
            r == self.sampled_spec(),
    {
        self.flags % 2 == 1
    }
}

/// What the next span is parented under.
#[derive(Clone, Copy, Debug, PartialEq, Eq, Structural)]
pub enum ParentHandle {
    /// No usable context arrived: the span starts a new trace.
    Detached,
    /// The context recovered from an incoming message.
    Remote(TraceContext),
}

impl ParentHandle {
    pub open spec fn trace_id_spec(self) -> Option<u128> {
        match self {
            ParentHandle::Detached => None,
            ParentHandle::Remote(c) => Some(c.trace_id),
        }
    }

    pub fn is_detached(&self) -> (r: bool)
        ensures
            r == (*self == ParentHandle::Detached),
    {
        match self {
            ParentHandle::Detached => true,
            ParentHandle::Remote(_) => false,
        }
    }

    pub fn trace_id(&self) -> (r: Option<u128>)
        ensures
            r == self.trace_id_spec(),
    {
        match self {
            ParentHandle::Detached => None,
            ParentHandle::Remote(c) => Some(c.trace_id),
        }
    }
}

/// The header carrier of a message: the one key it knows, `traceparent`,
/// with its value if the key is present.
#[derive(Clone, Debug)]
pub struct Carrier {
    pub traceparent: Option<String>,
}

impl Carrier {
    /// A carrier without the key.
    pub fn empty() -> (r: Carrier)
        ensures
            r.traceparent.is_none(),
    {
        Carrier { traceparent: None }
    }

    /// A carrier whose `traceparent` is `value`.
    pub fn with_traceparent(value: String) -> (r: Carrier)
        ensures
            r.traceparent == Some(value),
    {
        Carrier { traceparent: Some(value) }
    }
}

/// The digit that stands for `d` (0 to 15).
pub open spec fn hex_digit(d: int) -> char {
    if d == 0 { '0' }
    else if d == 1 { '1' }
    else if d == 2 { '2' }
    else if d == 3 { '3' }
    else if d == 4 { '4' }
    else if d == 5 { '5' }
    else if d == 6 { '6' }
    else if d == 7 { '7' }
    else if d == 8 { '8' }
    else if d == 9 { '9' }
    else if d == 10 { 'a' }
    else if d == 11 { 'b' }
    else if d == 12 { 'c' }
    else if d == 13 { 'd' }
    else if d == 14 { 'e' }
    else { 'f' }
}

/// `n` written with exactly `w` digits, most significant first
/// (digits above the `w`-th are dropped).
pub open spec fn hex_of(n: nat, w: nat) -> Seq<char>
    decreases w,
{
    if w == 0 {
        Seq::empty()
    } else {
        hex_of(n / 16, (w - 1) as nat).push(hex_digit((n % 16) as int))
    }
}

/// The `traceparent` text of a context: version `00`, then the trace id in
/// 32, the span id in 16 and the flags in 2 lower-case hexadecimal digits,
/// separated by dashes.
pub open spec fn traceparent_text(c: TraceContext) -> Seq<char> {
    seq!['0', '0', '-'] + hex_of(c.trace_id as nat, 32) + seq!['-'] + hex_of(c.span_id as nat, 16)
        + seq!['-'] + hex_of(c.flags as nat, 2)
}

/// A letter that is not a hexadecimal digit in either case.
pub open spec fn starts_past_hex(c: char) -> bool {
    ('g' <= c && c <= 'z') || ('G' <= c && c <= 'Z')
}

/// What the propagator reads from a `traceparent` value: trace id, span id
/// and flags, or nothing.
pub uninterp spec fn propagator_reading(value: Seq<char>) -> Option<(u128, u64, u8)>;

/// Relies on `TraceContextPropagator::inject_context` of opentelemetry: for
/// a valid span context it sets `traceparent` to
/// `format!("{:02x}-{:032x}-{:016x}-{:02x}", 0, trace id, span id, flags & SAMPLED)`,
/// and for an invalid one it sets nothing.
#[verifier::external_body]
fn propagator_inject(c: &TraceContext) -> (r: Option<String>)
    ensures
        r.is_some() == c.is_valid(),
        r.is_some() ==> r.unwrap()@ == traceparent_text(c.propagated()),
{
    let sc = SpanContext::new(TraceId::from_u128(c.trace_id), SpanId::from_u64(c.span_id),
        TraceFlags::new(c.flags), true, TraceState::default());
    let cx = Context::new().with_remote_span_context(sc);
    let mut injector: HashMap<String, String> = HashMap::new();
    TraceContextPropagator::new().inject_context(&cx, &mut injector);
    injector.remove("traceparent")
}

/// Relies on `TraceContextPropagator::extract_with_context` of opentelemetry,
/// on an empty context and a carrier that holds `traceparent` alone: a span
/// context comes back only where it is valid, its flags masked to the sampled
/// bit; an empty value has fewer than four parts and gives none; a value
/// that starts with a letter past `f` (after `trim`, the version part starts
/// with it, and `u8::from_str_radix` with radix 16 refuses it) gives none; the
/// text that `inject_context` writes for a valid context (version 0,
/// lower-case ids of full width, flags at most 1) is read back as that
/// context.
#[verifier::external_body]
fn propagator_extract(value: &String) -> (r: Option<(u128, u64, u8)>)
    ensures
        r == propagator_reading(value@),
        r.is_some() ==> r.unwrap().0 != 0 && r.unwrap().1 != 0 && r.unwrap().2 <= 1,
        value@.len() == 0 ==> r.is_none(),
        value@.len() > 0 && starts_past_hex(value@[0]) ==> r.is_none(),
        forall|c: TraceContext|
            c.is_valid() && c.flags <= 1 && value@ == traceparent_text(c)
                ==> r == Some((c.trace_id, c.span_id, c.flags)),
{
    let mut extractor: HashMap<String, String> = HashMap::new();
    extractor.insert("traceparent".to_string(), value.clone());
    let cx = TraceContextPropagator::new().extract_with_context(&Context::new(), &extractor);
    if !cx.has_active_span() {
        return None;
    }
    let sc = cx.span().span_context().clone();
    Some((sc.trace_id().to_u128(), sc.span_id().to_u64(), sc.trace_flags().to_u8()))
}

/// The handle that a reading of the propagator stands for.
pub open spec fn handle_spec(reading: Option<(u128, u64, u8)>) -> ParentHandle {
    match reading {
        Some(r) => ParentHandle::Remote(TraceContext { trace_id: r.0, span_id: r.1, flags: r.2 }),
        None => ParentHandle::Detached,
    }
}

/// The parent handle for what the propagator read: the context it read, or
/// detached where it read nothing.
pub fn handle_of_reading(reading: Option<(u128, u64, u8)>) -> (r: ParentHandle)
    ensures
        r == handle_spec(reading),
        reading.is_none() <==> r == ParentHandle::Detached,
{
    match reading {
        Some((t, p, f)) => ParentHandle::Remote(TraceContext { trace_id: t, span_id: p, flags: f }),
        None => ParentHandle::Detached,
    }
}

/// The handle that `extract` gives for a carrier.
pub open spec fn extract_spec(c: Carrier) -> ParentHandle {
    match c.traceparent {
        None => ParentHandle::Detached,
        Some(v) => handle_spec(propagator_reading(v@)),
    }
}

/// Writes the `traceparent` value of a context; `None` where the context
/// is not valid, since such a context is never propagated.
pub fn format_traceparent(c: &TraceContext) -> (r: Option<String>)
    ensures
        r.is_some() == c.is_valid(),
        r.is_some() ==> r.unwrap()@ == traceparent_text(c.propagated()),
{
    propagator_inject(c)
}

/// Writes the context of the current span into a fresh carrier: the key is
/// present exactly when the context is valid.
pub fn inject(c: &TraceContext) -> (r: Carrier)
    ensures
        r.traceparent.is_some() == c.is_valid(),
        r.traceparent.is_some() ==> r.traceparent.unwrap()@ == traceparent_text(c.propagated()),
{
    Carrier { traceparent: propagator_inject(c) }
}

/// The parent handle that a carrier gives: detached where the key is absent
/// or its value is not a valid `traceparent`, never an error. What `inject`
/// wrote for a valid context comes back as that context, as it travels.
pub fn extract(c: &Carrier) -> (r: ParentHandle)
    ensures
        r == extract_spec(*c),
        c.traceparent.is_none() ==> r == ParentHandle::Detached,
        c.traceparent.is_some() && c.traceparent.unwrap()@.len() == 0 ==> r == ParentHandle::Detached,
        c.traceparent.is_some() && c.traceparent.unwrap()@.len() > 0 && starts_past_hex(c.traceparent.unwrap()@[0])
            ==> r == ParentHandle::Detached,
        forall|s: TraceContext|
            s.is_valid() && c.traceparent.is_some() && c.traceparent.unwrap()@ == traceparent_text(s.propagated())
                ==> r == ParentHandle::Remote(s.propagated()) && r.trace_id_spec() == Some(s.trace_id),
{
    match &c.traceparent {
        None => ParentHandle::Detached,
        Some(v) => {
            let r = propagator_extract(v);
            proof {
                assert forall|s: TraceContext|
                    s.is_valid() && v@ == traceparent_text(s.propagated()) implies r == Some(
                    (s.trace_id, s.span_id, s.propagated().flags),
                ) by {
                    assert(s.propagated().is_valid());
                    assert(s.propagated().flags <= 1);
                }
            }
            handle_of_reading(r)
        },
    }
}

} // verus!
