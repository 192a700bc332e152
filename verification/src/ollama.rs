//! The LLM backend's address model and reply classification.
//!
//! The backend lives at a fixed base URL. The transparent forwarder keeps
//! method, path and query intact and only rewrites the authority, so the
//! target URL is a pure function of the inbound path and query, built here.

use vstd::prelude::*;
use vstd::string::*;

verus! {

/// A buffered backend generation reply, in the backend's native shape.
#[derive(Debug)]
pub struct OllamaResponse {
    pub response: String,
}

/// Why a backend call failed: the connection could not be made (or timed
/// out), or the backend answered with a non-success status.
#[derive(Debug)]
pub enum BackendError {
    Unavailable,
    BadStatus,
}

/// The backend's fixed base URL.
pub open spec fn backend_base_spec() -> Seq<char> {
    "http://ollama:11434"@
}

/// The URL a request is forwarded to: the backend base, the inbound path,
/// and the inbound query when there is one.
pub open spec fn backend_url_spec(path: Seq<char>, query: Option<Seq<char>>) -> Seq<char> {
    match query {
        Some(q) => backend_base_spec() + path + "?"@ + q,
        None => backend_base_spec() + path,
    }
}

/// Builds the backend target URL, preserving path and query verbatim.
pub fn backend_url(path: &str, query: Option<&str>) -> (r: String)
    ensures
        r@ == backend_url_spec(path@, match query {
            Some(q) => Some(q@),
            None => None,
        }),
{
    let mut out: String = "http://ollama:11434".to_owned();
    out.append(path);
    match query {
        Some(q) => {
            out.append("?");
            out.append(q);
        },
        None => {},
    }
    proof {
        assert(out@ =~= backend_url_spec(path@, match query {
            Some(q) => Some(q@),
            None => None,
        }));
    }
    out
}

/// A backend reply carries usable content only on a success status.
pub fn backend_status_ok(status: u16) -> (r: bool)
    ensures
        r <==> 200 <= status < 300,
{
    200 <= status && status < 300
}

} // verus!
