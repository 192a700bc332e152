//! A scan-gated reverse proxy core for a local LLM backend.
//!
//! Chat traffic is intercepted, the latest user prompt is extracted and sent
//! to a content-security scanner; only an `allow` verdict lets the request
//! reach the backend, whose answer is itself re-scanned before being returned.
//! A `block` verdict on either side yields a synthesized, backend-shaped
//! refusal. All other traffic is forwarded transparently.

use vstd::prelude::*;

pub mod airs;
pub mod chat;
pub mod gate;
pub mod jsontext;
pub mod ollama;
pub mod route;
pub mod synth;

verus! {

/// Upper bound, in bytes, on an inbound gated request body.
pub const BODY_LIMIT: usize = 1048576;

/// A body is admitted only when it does not exceed the 1 MiB ceiling.
pub fn body_within_limit(len: usize) -> (r: bool)
    ensures
        r <==> len <= BODY_LIMIT,
{
    len <= BODY_LIMIT
}

} // verus!
