use scan_gate::airs::{PromptDetection, ResponseDetection, ScanResponse};
use scan_gate::synth::{passthrough, synthesize_block};

fn verdict(action: &str, category: &str) -> ScanResponse {
    ScanResponse {
        action: action.to_string(),
        category: category.to_string(),
        prompt_detected: PromptDetection {
            dlp: false,
            injection: false,
            malicious_code: false,
            toxic_content: false,
            url_cats: false,
        },
        response_detected: ResponseDetection {
            dlp: false,
            malicious_code: false,
            toxic_content: false,
            url_cats: false,
        },
        report_id: "r".to_string(),
        scan_id: "s".to_string(),
        tr_id: "t".to_string(),
        profile_id: "p".to_string(),
        profile_name: "n".to_string(),
    }
}

#[test]
fn block_body_has_the_exact_expected_shape() {
    let body = synthesize_block(&verdict("block", "malicious_code"));
    let expected = "{\"message\":{\"role\":\"assistant\",\"content\":\"\
Blocked by AI security policy.\\n\\nCategory: malicious_code\
\\nSuggestion: rephrase your request.\
\"},\"done\":true}";
    assert_eq!(body, expected);
}

#[test]
fn synthesizing_twice_is_byte_identical() {
    let v = verdict("block", "toxic_content");
    let first = synthesize_block(&v);
    let second = synthesize_block(&v);
    assert_eq!(first.as_bytes(), second.as_bytes());
}

#[test]
fn block_body_parses_as_the_backend_shape() {
    let body = synthesize_block(&verdict("block", "url_cats"));
    let v: serde_json::Value = serde_json::from_str(&body).expect("refusal must be valid JSON");
    assert_eq!(v["message"]["role"], "assistant");
    assert_eq!(v["done"], true);
    let content = v["message"]["content"].as_str().unwrap();
    assert!(content.contains("url_cats"));
}

#[test]
fn block_body_survives_a_hostile_category() {
    let body = synthesize_block(&verdict("block", "a\"b\\c\ncategory"));
    let v: serde_json::Value = serde_json::from_str(&body).expect("refusal must be valid JSON");
    let content = v["message"]["content"].as_str().unwrap();
    assert!(content.contains("a\"b\\c\ncategory"));
}

#[test]
fn passthrough_is_the_identity() {
    let body = b"raw backend bytes".to_vec();
    assert_eq!(passthrough(body.clone()), body);
}
