use fabric_gui_core::strutil::{contains, starts_with, str_eq, str_le_exec, truncate_chars};
use fabric_gui_core::vendor::{AIChunk, AIRequest};

#[test]
fn equality_is_by_characters() {
    assert!(str_eq("abc", "abc"));
    assert!(!str_eq("abc", "abd"));
    assert!(!str_eq("abc", "ab"));
    assert!(str_eq("", ""));
}

#[test]
fn order_is_lexicographic() {
    assert!(str_le_exec("analyze", "write"));
    assert!(!str_le_exec("write", "analyze"));
    assert!(str_le_exec("ab", "abc"));
    assert!(str_le_exec("same", "same"));
    assert!(str_le_exec("", "a"));
}

#[test]
fn prefix_test_matches_marker_use() {
    assert!(starts_with("data: x", "data: "));
    assert!(!starts_with("data:x", "data: "));
    assert!(!starts_with("dat", "data: "));
}

#[test]
fn substring_search_finds_inner_occurrences() {
    assert!(contains("API_KEY_INVALID", "API_KEY"));
    assert!(contains("x", ""));
    assert!(!contains("api key", "api_key"));
}

#[test]
fn truncation_keeps_a_character_budget() {
    assert_eq!(truncate_chars("hello", 3), "hel");
    assert_eq!(truncate_chars("hi", 300), "hi");
    assert_eq!(truncate_chars("", 5), "");
}

#[test]
fn request_and_fragment_records_hold_their_fields() {
    let req = AIRequest {
        vendor: "anthropic".to_string(),
        model: "large-model-v2".to_string(),
        api_key: "SECRET-REDACTED".to_string(),
        system_prompt: "sys".to_string(),
        user_input: "hi".to_string(),
        temperature: "1".to_string(),
        top_p: "0.95".to_string(),
        thinking_level: Some(2),
    };
    assert_eq!(req.vendor, "anthropic");
    assert_eq!(req.thinking_level, Some(2));
    let chunk = AIChunk { chunk: "hello".to_string() };
    assert_eq!(chunk.chunk, "hello");
}
