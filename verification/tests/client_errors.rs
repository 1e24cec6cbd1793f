use renfield::client::error::Error;
use renfield::client::ollama::error::Error as OllamaError;

#[test]
fn test_ollama_error_text() {
    let e = OllamaError::from("invalid model path");
    assert_eq!(e.to_text(), "invalid model path");
    assert_eq!(OllamaError::from(String::from("x")).error, "x");
    assert_eq!(OllamaError::default().error, "");
}

#[test]
fn test_provider_errors() {
    let e = Error::from(OllamaError::from("boom"));
    assert!(matches!(e, Error::Ollama(ref o) if o.error == "boom"));
    let e = Error::from(renfield::client::gemini::error::Error::default());
    assert!(matches!(e, Error::Gemini(ref g) if g.code == 0 && g.message.is_empty()));
}
