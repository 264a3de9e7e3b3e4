//! Core of a webhook relay: inbound HTTP requests are normalized into
//! records, a deployment-supplied routing script decides whether and where
//! to forward each one, and accepted requests become messages published to
//! named queues on an external broker.
//!
//! This crate holds the verified logic of that pipeline: admission of raw
//! requests (body ceiling, header normalization, MIME defaulting), the
//! scripting host that loads the routing module and runs its handler, the
//! mapping from routing decisions to HTTP responses and delivery payloads,
//! and the publisher's startup and per-message command model. The HTTP
//! server, the broker client and the process plumbing live outside and talk
//! to this crate through plain values.
use vstd::prelude::*;

pub mod admission;
pub mod body;
pub mod diag;
pub mod host;
pub mod publish;
pub mod record;
pub mod textenc;

verus! {

/// Ceiling on the size of an inbound request body, in bytes (128 MiB).
pub const MAX_BODY_SIZE: usize = 134217728;

/// The body-size ceiling as an executable value.
pub fn max_body_size() -> (r: usize)
    ensures
        r == MAX_BODY_SIZE,
{
    MAX_BODY_SIZE
}

} // verus!
