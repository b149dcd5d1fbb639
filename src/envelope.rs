//! The message exchanged between stages: a simulated work duration for the
//! receiving stage and the `traceparent` of the sending stage's span.
use vstd::prelude::*;
use crate::codec::{extract, extract_spec, format_traceparent, traceparent_text, Carrier, ParentHandle, TraceContext};

verus! {

#[derive(Clone, Debug)]
pub struct Envelope {
    /// How long the receiving stage works on this message, in milliseconds.
    pub sleep_time: u64,
    /// The `traceparent` of the span that sent the message.
    pub span_context: String,
}

impl Envelope {
    /// The carrier that the receiving stage extracts its parent from.
    pub open spec fn carrier_spec(&self) -> Carrier {
        Carrier { traceparent: Some(self.span_context) }
    }

    /// The parent handle that this envelope's context gives.
    pub open spec fn parent_spec(&self) -> ParentHandle {
        extract_spec(self.carrier_spec())
    }

    pub fn new(sleep_time: u64, span_context: String) -> (r: Envelope)
        ensures
            r.sleep_time == sleep_time,
            r.span_context == span_context,
    {
        Envelope { sleep_time, span_context }
    }

    /// The envelope that a stage sends downstream from its span `ctx`;
    /// `None` where `ctx` is not valid and so cannot be propagated.
    pub fn outgoing(ctx: &TraceContext, sleep_time: u64) -> (r: Option<Envelope>)
        ensures
            r.is_some() == ctx.is_valid(),
            r.is_some() ==> r.unwrap().sleep_time == sleep_time,
            r.is_some() ==> r.unwrap().span_context@ == traceparent_text(ctx.propagated()),
    {
        match format_traceparent(ctx) {
            Some(s) => Some(Envelope { sleep_time, span_context: s }),
            None => None,
        }
    }

    pub fn carrier(&self) -> (r: Carrier)
        ensures
            r == self.carrier_spec(),
    {
        Carrier { traceparent: Some(self.span_context.clone()) }
    }

    /// The parent that a span started for this envelope is nested under.
    /// An envelope sent from a valid span has that span as the parent: the
    /// edges of the trace are rebuilt from the envelopes alone.
    pub fn parent(&self) -> (r: ParentHandle)
        ensures
            r == self.parent_spec(),
            self.span_context@.len() == 0 ==> r == ParentHandle::Detached,
            forall|s: TraceContext|
                s.is_valid() && self.span_context@ == traceparent_text(s.propagated())
                    ==> r == ParentHandle::Remote(s.propagated()),
    {
        extract(&self.carrier())
    }
}

} // verus!
