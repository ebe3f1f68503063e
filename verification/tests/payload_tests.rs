use fabric_gui_core::httperr::{
    classify_gemini_error, network_error_message, plain_api_error, stream_error_message,
};
use fabric_gui_core::payload::{
    anthropic_payload, anthropic_url, anthropic_version, bearer_header, gemini_payload,
    gemini_url, json_escape, openai_payload, openai_url,
};
use fabric_gui_core::vendor::{AIRequest, Vendor};

fn request(thinking: Option<i32>) -> AIRequest {
    AIRequest {
        vendor: "openai".to_string(),
        model: "gpt-4".to_string(),
        api_key: "SECRET-REDACTED".to_string(),
        system_prompt: "be \"nice\"".to_string(),
        user_input: "hello\nworld".to_string(),
        temperature: "0.7".to_string(),
        top_p: "0.9".to_string(),
        thinking_level: thinking,
    }
}

#[test]
fn escaping_matches_the_json_library() {
    let cases = [
        "plain",
        "a\"b",
        "back\\slash",
        "line\nbreak\r\ttab",
        "ctrl\u{1}\u{1f}",
        "bell\u{8}form\u{c}",
        "",
    ];
    for s in cases {
        let quoted = format!("\"{}\"", json_escape(s));
        assert_eq!(quoted, serde_json::to_string(s).unwrap());
    }
}

#[test]
fn openai_body_is_exact() {
    let body = openai_payload(&request(None));
    assert_eq!(
        body,
        "{\"model\":\"gpt-4\",\"messages\":[{\"role\":\"system\",\"content\":\"be \\\"nice\\\"\"},\
         {\"role\":\"user\",\"content\":\"hello\\nworld\"}],\"temperature\":0.7,\"top_p\":0.9,\
         \"stream\":true}"
    );
    let v: serde_json::Value = serde_json::from_str(&body).unwrap();
    assert_eq!(v.get("model").unwrap().as_str().unwrap(), "gpt-4");
    assert_eq!(
        v.get("messages").unwrap().get(1).unwrap().get("content").unwrap().as_str().unwrap(),
        "hello\nworld"
    );
}

#[test]
fn anthropic_body_is_exact() {
    let body = anthropic_payload(&request(None));
    let v: serde_json::Value = serde_json::from_str(&body).unwrap();
    assert_eq!(v.get("system").unwrap().as_str().unwrap(), "be \"nice\"");
    assert_eq!(v.get("max_tokens").unwrap().as_i64().unwrap(), 4096);
    assert_eq!(v.get("stream").unwrap().as_bool().unwrap(), true);
    assert_eq!(
        v.get("messages").unwrap().get(0).unwrap().get("role").unwrap().as_str().unwrap(),
        "user"
    );
}

#[test]
fn gemini_body_without_thinking_has_no_config() {
    let body = gemini_payload(&request(None));
    let v: serde_json::Value = serde_json::from_str(&body).unwrap();
    let config = v.get("generationConfig").unwrap();
    assert!(config.get("thinkingConfig").is_none());
    assert_eq!(config.get("temperature").unwrap().as_f64().unwrap(), 0.7);
    let parts = v.get("contents").unwrap().get(0).unwrap().get("parts").unwrap();
    assert_eq!(parts.get(0).unwrap().get("text").unwrap().as_str().unwrap(), "be \"nice\"");
    assert_eq!(parts.get(1).unwrap().get("text").unwrap().as_str().unwrap(), "hello\nworld");
}

#[test]
fn gemini_thinking_levels_map_to_names() {
    let levels = [(1, "MEDIUM"), (2, "HIGH"), (3, "LOW")];
    for (level, name) in levels {
        let body = gemini_payload(&request(Some(level)));
        let v: serde_json::Value = serde_json::from_str(&body).unwrap();
        let got = v
            .get("generationConfig")
            .unwrap()
            .get("thinkingConfig")
            .unwrap()
            .get("thinkingLevel")
            .unwrap()
            .as_str()
            .unwrap()
            .to_string();
        assert_eq!(got, name);
    }
    let body = gemini_payload(&request(Some(0)));
    let v: serde_json::Value = serde_json::from_str(&body).unwrap();
    assert!(v.get("generationConfig").unwrap().get("thinkingConfig").is_none());
}

#[test]
fn endpoint_addresses_are_fixed() {
    assert_eq!(
        gemini_url("gemini-pro", "SECRET-REDACTED"),
        "https://generativelanguage.googleapis.com/v1beta/models/gemini-pro:streamGenerateContent?key=SECRET-REDACTED&alt=sse"
    );
    assert_eq!(openai_url(), "https://api.openai.com/v1/chat/completions");
    assert_eq!(anthropic_url(), "https://api.anthropic.com/v1/messages");
}

#[test]
fn header_values_are_fixed() {
    assert_eq!(bearer_header("SECRET-REDACTED"), "Bearer SECRET-REDACTED");
    assert_eq!(anthropic_version(), "2023-06-01");
}

#[test]
fn key_trouble_is_classified_first() {
    let msg = classify_gemini_error("m", "400 Bad Request", "API_KEY_INVALID and 404");
    assert_eq!(msg, "Invalid Google API Key. Please check your API key in Settings (Ctrl+S).");
    let msg = classify_gemini_error("m", "400 Bad Request", "your api_key is wrong");
    assert_eq!(msg, "Invalid Google API Key. Please check your API key in Settings (Ctrl+S).");
}

#[test]
fn missing_model_names_the_model() {
    let msg = classify_gemini_error("gemini-ultra", "404 Not Found", "model not found");
    assert_eq!(msg, "Model 'gemini-ultra' not found. Please select a different model.");
    let msg = classify_gemini_error("g", "404 Not Found", "NOT_FOUND");
    assert_eq!(msg, "Model 'g' not found. Please select a different model.");
}

#[test]
fn rate_and_quota_trouble_are_classified() {
    assert_eq!(
        classify_gemini_error("m", "429 Too Many Requests", "RATE_LIMIT hit"),
        "API rate limit exceeded. Please wait a moment and try again."
    );
    assert_eq!(
        classify_gemini_error("m", "403 Forbidden", "QUOTA exhausted"),
        "API quota exceeded. Please check your Google Cloud billing."
    );
}

#[test]
fn unclassified_trouble_passes_through_truncated() {
    let long_body = "x".repeat(350);
    let msg = classify_gemini_error("m", "500 Internal Server Error", &long_body);
    assert_eq!(msg, format!("API Error (500 Internal Server Error): {}", "x".repeat(300)));
}

#[test]
fn passthrough_errors_name_the_vendor() {
    assert_eq!(
        plain_api_error(Vendor::OpenAi, "401 Unauthorized", "denied"),
        "OpenAI API Error (401 Unauthorized): denied"
    );
    assert_eq!(
        plain_api_error(Vendor::Anthropic, "529 Overloaded", "busy"),
        "Anthropic API Error (529 Overloaded): busy"
    );
}

#[test]
fn transport_failures_are_prefixed() {
    assert_eq!(network_error_message("refused"), "Network error: refused");
    assert_eq!(stream_error_message("reset"), "Stream error: reset");
}
