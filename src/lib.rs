//! Trace-context propagation across the stages of a publish/subscribe
//! pipeline: the `traceparent` codec, the message envelope and the
//! decision logic of each stage's processing loop.
pub mod codec;
pub mod envelope;
pub mod stage;
