//! Verified core of a small chat-relay backend.
//!
//! The library holds everything the service decides or computes: shaping the
//! upstream request that carries a fixed tutoring persona together with one
//! user message, extracting the reply text out of the upstream response,
//! validating inbound messages, and flattening relay failures into the two
//! client-facing HTTP outcomes. The surrounding binary performs the actual
//! network and server I/O and hands this library plain values.

pub mod front;
pub mod gemini;
pub mod models;
