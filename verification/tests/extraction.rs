use scan_gate::chat::{extract_user_prompt, ChatMessage};

fn msg(role: &str, content: &str) -> ChatMessage {
    ChatMessage { role: role.to_string(), content: content.to_string() }
}

#[test]
fn last_user_message_wins() {
    let msgs = vec![
        msg("user", "first question"),
        msg("assistant", "an answer"),
        msg("user", "second question"),
    ];
    assert_eq!(extract_user_prompt(&msgs), "second question");
}

#[test]
fn reversed_order_yields_first_user() {
    let mut msgs = vec![
        msg("user", "first question"),
        msg("assistant", "an answer"),
        msg("user", "second question"),
    ];
    msgs.reverse();
    assert_eq!(extract_user_prompt(&msgs), "first question");
}

#[test]
fn no_user_message_gives_marker() {
    let msgs = vec![msg("system", "be nice"), msg("assistant", "ok")];
    assert_eq!(extract_user_prompt(&msgs), "N/A");
}

#[test]
fn empty_message_list_gives_marker() {
    let msgs: Vec<ChatMessage> = Vec::new();
    assert_eq!(extract_user_prompt(&msgs), "N/A");
}

#[test]
fn trailing_non_user_messages_are_skipped() {
    let msgs = vec![
        msg("user", "the prompt"),
        msg("assistant", "the answer"),
        msg("system", "post-note"),
    ];
    assert_eq!(extract_user_prompt(&msgs), "the prompt");
}

#[test]
fn user_message_with_empty_content_is_still_chosen() {
    let msgs = vec![msg("user", "earlier"), msg("user", "")];
    assert_eq!(extract_user_prompt(&msgs), "");
}
