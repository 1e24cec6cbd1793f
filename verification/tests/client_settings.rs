use renfield::client::settings::{bearer, endpoint_url, is_valid_header_value, Settings};

#[test]
fn test_header_value_validity() {
    assert!(is_valid_header_value("sk-ant-0123456789"));
    assert!(is_valid_header_value("with\ttab"));
    assert!(is_valid_header_value("naïve"));
    assert!(!is_valid_header_value("line\nbreak"));
    assert!(!is_valid_header_value("del\u{7f}"));
    assert!(is_valid_header_value(""));
}

#[test]
fn test_anthropic_settings() {
    let s = Settings::anthropic("secret");
    assert_eq!(s.endpoint, "https://api.anthropic.com/v1");
    assert_eq!(s.connect_timeout_secs, 20);
    assert_eq!(s.headers.len(), 3);
    assert_eq!(s.headers[0].name, "x-api-key");
    assert_eq!(s.headers[0].value, "secret");
    assert!(s.headers[0].sensitive);
    assert_eq!(s.headers[1].name, "anthropic-version");
    assert_eq!(s.headers[1].value, "2023-06-01");
    assert!(!s.headers[1].sensitive);
    assert_eq!(s.headers[2].name, "anthropic-beta");
    assert_eq!(s.headers[2].value, "web-fetch-2025-09-10");
}

#[test]
fn test_bearer_settings() {
    let s = Settings::openai("abc");
    assert_eq!(s.endpoint, "https://api.openai.com/v1");
    assert_eq!(s.connect_timeout_secs, 20);
    assert_eq!(s.headers.len(), 1);
    assert_eq!(s.headers[0].name, "authorization");
    assert_eq!(s.headers[0].value, "Bearer abc");
    let s = Settings::openrouter("xyz");
    assert_eq!(s.endpoint, "https://openrouter.ai/api/v1");
    assert_eq!(s.connect_timeout_secs, 30);
    assert_eq!(s.headers[0].value, "Bearer xyz");
    let s = Settings::gemini("g");
    assert_eq!(s.endpoint, "https://generativelanguage.googleapis.com/v1beta");
    assert_eq!(s.headers[0].name, "x-goog-api-key");
    assert_eq!(s.connect_timeout_secs, 20);
    assert_eq!(s.headers[0].value, "g");
}

#[test]
fn test_ollama_settings() {
    let s = Settings::ollama();
    assert_eq!(s.endpoint, "http://localhost:11434");
    assert!(s.headers.is_empty());
    let s = Settings::ollama_remote("https://ollama.com", Some("key"));
    assert_eq!(s.endpoint, "https://ollama.com");
    assert_eq!(s.headers.len(), 1);
    assert_eq!(s.headers[0].value, "Bearer key");
    let s = Settings::ollama_remote("https://ollama.com", None);
    assert!(s.headers.is_empty());
}

#[test]
fn test_urls() {
    assert_eq!(endpoint_url("https://api.openai.com/v1", "/models"), "https://api.openai.com/v1/models");
    assert_eq!(bearer("t"), "Bearer t");
}
