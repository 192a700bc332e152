//! The dispatcher's routing rule.
//!
//! Exactly one method and path is subject to the scan gate; every other
//! request, whatever its method, is forwarded transparently to the backend.

use vstd::prelude::*;
use crate::jsontext::str_eq;

verus! {

/// Where an inbound request goes: through the scan-gated pipeline, or
/// straight to the backend.
#[derive(Debug, PartialEq, Eq)]
pub enum RouteDecision {
    Gated,
    Forward,
}

/// A request is gated exactly when it is a POST to the chat endpoint.
pub open spec fn gated_spec(method: Seq<char>, path: Seq<char>) -> bool {
    method == "POST"@ && path == "/api/chat"@
}

/// Routes an inbound request by its method and path.
pub fn route_request(method: &str, path: &str) -> (r: RouteDecision)
    ensures
        r is Gated <==> gated_spec(method@, path@),
{
    if str_eq(method, "POST") && str_eq(path, "/api/chat") {
        RouteDecision::Gated
    } else {
        RouteDecision::Forward
    }
}

} // verus!
