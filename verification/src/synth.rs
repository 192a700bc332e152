//! The response synthesizer.
//!
//! When a scan blocks, the caller still receives a well-formed instance of
//! the backend's native chat-response shape: a single assistant message
//! whose content is a human-readable refusal naming the verdict's category,
//! flagged as terminal (`"done":true`). The body is a function of the
//! verdict's category alone, so synthesizing twice from the same verdict
//! yields byte-identical output.

use vstd::prelude::*;
use vstd::string::*;
use crate::airs::ScanResponse;
use crate::jsontext::{esc, json_escape};

verus! {

/// The human-readable refusal notice for a blocked exchange.
pub open spec fn refusal_text_spec(category: Seq<char>) -> Seq<char> {
    "Blocked by AI security policy.\n\nCategory: "@ + category
        + "\nSuggestion: rephrase your request."@
}

/// The synthesized refusal body: the backend's response shape with one
/// terminal assistant message carrying the refusal notice.
pub open spec fn block_body_spec(category: Seq<char>) -> Seq<char> {
    "{\"message\":{\"role\":\"assistant\",\"content\":\""@ + esc(refusal_text_spec(category))
        + "\"},\"done\":true}"@
}

/// Synthesizes the backend-shaped refusal for a blocking verdict.
pub fn synthesize_block(v: &ScanResponse) -> (r: String)
    ensures
        r@ == block_body_spec(v.category@),
{
    let mut msg: String = "Blocked by AI security policy.\n\nCategory: ".to_owned();
    msg.append(v.category.as_str());
    msg.append("\nSuggestion: rephrase your request.");
    let mut out: String = "{\"message\":{\"role\":\"assistant\",\"content\":\"".to_owned();
    let escaped = json_escape(msg.as_str());
    out.append(escaped.as_str());
    out.append("\"},\"done\":true}");
    proof {
        assert(msg@ =~= refusal_text_spec(v.category@));
        assert(out@ =~= block_body_spec(v.category@));
    }
    out
}

/// The identity seam of the allow case, kept so the two outcomes are
/// symmetric at the call site.
pub fn passthrough(body: Vec<u8>) -> (r: Vec<u8>)
    ensures
        r@ == body@,
{
    body
}

/// The synthesized refusal never carries a raw control character: the
/// fixed framing is printable and the embedded notice is escaped, so the
/// payload cannot be broken by a hostile category string.
pub proof fn lemma_block_body_printable(category: Seq<char>)
    ensures
        forall|i: int|
            0 <= i < block_body_spec(category).len() ==> (#[trigger] block_body_spec(category)[i])
                as u32 >= 32,
{
    reveal_strlit("{\"message\":{\"role\":\"assistant\",\"content\":\"");
    reveal_strlit("\"},\"done\":true}");
    crate::jsontext::lemma_esc_no_control(refusal_text_spec(category));
    let prefix = "{\"message\":{\"role\":\"assistant\",\"content\":\""@;
    let middle = esc(refusal_text_spec(category));
    let suffix = "\"},\"done\":true}"@;
    assert forall|i: int|
        0 <= i < block_body_spec(category).len() implies (#[trigger] block_body_spec(category)[i])
        as u32 >= 32 by {
        if i < prefix.len() {
            assert(block_body_spec(category)[i] == prefix[i]);
        } else if i < prefix.len() + middle.len() {
            assert(block_body_spec(category)[i] == middle[i - prefix.len()]);
        } else {
            assert(block_body_spec(category)[i] == suffix[i - prefix.len() - middle.len()]);
        }
    }
}

/// Synthesizing a block response from the same verdict twice yields
/// byte-identical output: the body depends on the verdict's category alone.
pub proof fn lemma_synthesize_deterministic(v1: ScanResponse, v2: ScanResponse)
    requires
        v1.category@ == v2.category@,
    ensures
        block_body_spec(v1.category@) == block_body_spec(v2.category@),
{
}

} // verus!
