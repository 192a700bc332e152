//! The chat-request message model and user-prompt extraction.
//!
//! A gated request body is a backend-native chat JSON object; the core only
//! needs the ordered message list with each message's `role` and `content`.
//! Extraction walks the list from most recent to oldest and returns the
//! content of the first user-authored message, or the empty marker when
//! there is none — extraction never fails.

use vstd::prelude::*;
use vstd::string::*;
use crate::jsontext::str_eq;

verus! {

/// One message of a chat request, as the backend shapes it.
#[derive(Debug)]
pub struct ChatMessage {
    pub role: String,
    pub content: String,
}

/// The sentinel sent to the scanner in place of empty content.
pub open spec fn empty_marker() -> Seq<char> {
    "N/A"@
}

/// The extracted prompt: content of the last message whose role is `user`,
/// or the empty marker when no such message exists.
pub open spec fn extract_spec(msgs: Seq<ChatMessage>) -> Seq<char>
    decreases msgs.len(),
{
    if msgs.len() == 0 {
        empty_marker()
    } else if msgs.last().role@ == "user"@ {
        msgs.last().content@
    } else {
        extract_spec(msgs.drop_last())
    }
}

/// Returns the content of the most recent user-authored message, or the
/// empty marker if there is none.
pub fn extract_user_prompt(msgs: &Vec<ChatMessage>) -> (r: String)
    ensures
        r@ == extract_spec(msgs@),
{
    let n = msgs.len();
    let mut i: usize = n;
    proof {
        assert(msgs@.take(n as int) =~= msgs@);
    }
    while i > 0
        invariant
            i <= n,
            n == msgs@.len(),
            extract_spec(msgs@) == extract_spec(msgs@.take(i as int)),
        decreases i,
    {
        i = i - 1;
        if str_eq(msgs[i].role.as_str(), "user") {
            proof {
                assert(msgs@.take(i + 1).last() == msgs@[i as int]);
            }
            return msgs[i].content.clone();
        }
        proof {
            assert(msgs@.take(i + 1).drop_last() =~= msgs@.take(i as int));
        }
    }
    proof {
        assert(msgs@.take(0) =~= Seq::<ChatMessage>::empty());
    }
    "N/A".to_owned()
}

/// No user-authored message anywhere: extraction yields the empty marker;
/// and when a latest user message exists, extraction yields its content.
pub proof fn lemma_extract_last_user(msgs: Seq<ChatMessage>)
    ensures
        (forall|i: int| 0 <= i < msgs.len() ==> msgs[i].role@ != "user"@) ==> extract_spec(msgs)
            == empty_marker(),
        forall|i: int|
            0 <= i < msgs.len() && msgs[i].role@ == "user"@ && (forall|j: int|
                i < j < msgs.len() ==> msgs[j].role@ != "user"@) ==> extract_spec(msgs)
                == msgs[i].content@,
    decreases msgs.len(),
{
    if msgs.len() > 0 {
        lemma_extract_last_user(msgs.drop_last());
        assert forall|i: int|
            0 <= i < msgs.len() && msgs[i].role@ == "user"@ && (forall|j: int|
                i < j < msgs.len() ==> msgs[j].role@ != "user"@) implies extract_spec(msgs)
            == msgs[i].content@ by {
            if i == msgs.len() - 1 {
                assert(msgs.last() == msgs[i]);
            } else {
                assert(msgs.last().role@ != "user"@);
                assert(msgs.drop_last()[i] == msgs[i]);
            }
        }
    }
}

} // verus!
