use scan_gate::airs::{
    build_scan_envelope, classify_scan_status, fresh_tr_id, normalize, ScanConfig, ScanContent,
    ScanError,
};
use scan_gate::jsontext::json_escape;

fn config() -> ScanConfig {
    ScanConfig {
        token: "test-token".to_string(),
        profile_id: "pid-1".to_string(),
        profile_name: "profile one".to_string(),
    }
}

#[test]
fn escape_leaves_plain_text_alone() {
    assert_eq!(json_escape("hello world"), "hello world");
}

#[test]
fn escape_quotes_backslashes_and_newlines() {
    assert_eq!(json_escape("a\"b\\c\nd"), "a\\\"b\\\\c\\nd");
    assert_eq!(json_escape("tab\there"), "tab\\there");
    assert_eq!(json_escape("cr\rhere"), "cr\\rhere");
}

#[test]
fn escape_writes_other_control_characters_as_hex() {
    assert_eq!(json_escape("\u{1}"), "\\u0001");
    assert_eq!(json_escape("\u{1f}"), "\\u001f");
    assert_eq!(json_escape("\u{0}"), "\\u0000");
}

#[test]
fn normalize_blank_to_marker() {
    assert_eq!(normalize("".to_string()), "N/A");
    assert_eq!(normalize(" \t\r\n ".to_string()), "N/A");
}

#[test]
fn normalize_covers_unicode_whitespace() {
    // The blankness test matches str::trim: vertical tab, form feed,
    // no-break space and ideographic space are whitespace too.
    assert_eq!(normalize("\u{b}".to_string()), "N/A");
    assert_eq!(normalize("\u{c}".to_string()), "N/A");
    assert_eq!(normalize("\u{85}\u{a0}".to_string()), "N/A");
    assert_eq!(normalize("\u{1680}\u{2003}\u{200a}".to_string()), "N/A");
    assert_eq!(normalize("\u{2028}\u{2029}\u{202f}\u{205f}\u{3000}".to_string()), "N/A");
    // Agreement with the standard library's own judgement.
    for s in ["\u{b}", " \u{a0} ", "\u{3000}", "x", " x ", "\u{200b}"] {
        let normalized = normalize(s.to_string());
        if s.trim().is_empty() {
            assert_eq!(normalized, "N/A");
        } else {
            assert_eq!(normalized, s);
        }
    }
}

#[test]
fn normalize_keeps_content() {
    assert_eq!(normalize("hello".to_string()), "hello");
    assert_eq!(normalize(" padded ".to_string()), " padded ");
}

#[test]
fn scan_content_normalizes_every_field() {
    let c = ScanContent::new(
        "ask".to_string(),
        "".to_string(),
        "  ".to_string(),
        "code".to_string(),
    );
    assert_eq!(c.prompt, "ask");
    assert_eq!(c.response, "N/A");
    assert_eq!(c.code_prompt, "N/A");
    assert_eq!(c.code_response, "code");

    let c = ScanContent::new(
        "\u{b}".to_string(),
        "\u{a0}".to_string(),
        "\u{3000}".to_string(),
        "\u{85}".to_string(),
    );
    assert_eq!(c.prompt, "N/A");
    assert_eq!(c.response, "N/A");
    assert_eq!(c.code_prompt, "N/A");
    assert_eq!(c.code_response, "N/A");
}

#[test]
fn envelope_has_the_exact_expected_shape() {
    let c = ScanContent::new(
        "hello".to_string(),
        "".to_string(),
        "".to_string(),
        "".to_string(),
    );
    let env = build_scan_envelope(&config(), "tid-123", &c);
    let expected = "{\"tr_id\":\"tid-123\",\
\"ai_profile\":{\"profile_id\":\"pid-1\",\"profile_name\":\"profile one\"},\
\"metadata\":{\"app_name\":\"proxy\",\"app_user\":\"user_dam\",\"ai_model\":\"Ollama3\"},\
\"contents\":[{\"prompt\":\"hello\",\"response\":\"N/A\",\
\"code_prompt\":\"N/A\",\"code_response\":\"N/A\"}]}";
    assert_eq!(env, expected);
}

#[test]
fn envelope_escapes_embedded_quotes_and_parses_back() {
    let c = ScanContent::new(
        "say \"hi\"\nplease".to_string(),
        "".to_string(),
        "".to_string(),
        "".to_string(),
    );
    let env = build_scan_envelope(&config(), "tid", &c);
    let v: serde_json::Value = serde_json::from_str(&env).expect("envelope must be valid JSON");
    assert_eq!(v["tr_id"], "tid");
    assert_eq!(v["ai_profile"]["profile_id"], "pid-1");
    assert_eq!(v["ai_profile"]["profile_name"], "profile one");
    assert_eq!(v["metadata"]["app_name"], "proxy");
    assert_eq!(v["contents"][0]["prompt"], "say \"hi\"\nplease");
    assert_eq!(v["contents"][0]["response"], "N/A");
}

#[test]
fn config_requires_all_three_values() {
    let ok = ScanConfig::from_env_values(
        Some("t".to_string()),
        Some("p".to_string()),
        Some("n".to_string()),
    );
    let c = ok.expect("all values present");
    assert_eq!(c.token, "t");
    assert_eq!(c.profile_id, "p");
    assert_eq!(c.profile_name, "n");

    let missing = ScanConfig::from_env_values(None, Some("p".to_string()), Some("n".to_string()));
    assert!(matches!(missing, Err(ScanError::Configuration)));
    let missing2 = ScanConfig::from_env_values(Some("t".to_string()), None, None);
    assert!(matches!(missing2, Err(ScanError::Configuration)));
}

#[test]
fn scan_status_only_200_carries_a_verdict() {
    let ok = classify_scan_status(200, "body".to_string());
    assert_eq!(ok.unwrap(), "body");
    match classify_scan_status(403, "denied".to_string()) {
        Err(ScanError::Protocol { body }) => assert_eq!(body, "denied"),
        other => panic!("expected a protocol error, got {:?}", other),
    }
}

#[test]
fn transaction_ids_are_hyphenated_and_fresh() {
    let a = fresh_tr_id();
    let b = fresh_tr_id();
    assert_eq!(a.len(), 36);
    assert_eq!(b.len(), 36);
    assert_eq!(a.chars().filter(|c| *c == '-').count(), 4);
    assert_ne!(a, b);
}
