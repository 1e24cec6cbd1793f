use renfield::client::anthropic::message as anthropic;
use renfield::client::openai::message as openai;
use renfield::client::openai::request::AudioFormat as OpenAIAudioFormat;
use renfield::client::openrouter::message as openrouter;

fn openai_text(p: &openai::ContentPart) -> Option<&str> {
    match p {
        openai::ContentPart::Text { text } => Some(text),
        _ => None,
    }
}

#[test]
fn test_openai_combine() {
    let a = openai::Content::from("first");
    let b = openai::Content::from(vec![
        openai::ContentPart::from("second"),
        openai::ContentPart::from(openai::ImageInput::from_url("data:image/png;base64,AA")),
    ]);
    match a.combine(b) {
        openai::Content::ContentParts(parts) => {
            assert_eq!(parts.len(), 3);
            assert_eq!(openai_text(&parts[0]), Some("first"));
            assert_eq!(openai_text(&parts[1]), Some("second"));
            match &parts[2] {
                openai::ContentPart::ImageUrl { image_url } => {
                    assert_eq!(image_url.url, "data:image/png;base64,AA");
                    assert_eq!(image_url.detail, None);
                },
                _ => panic!("expected an image"),
            }
        },
        openai::Content::Text(_) => panic!("expected parts"),
    }
}

#[test]
fn test_openai_combine_texts_and_empty() {
    let r = openai::Content::from("a").combine(openai::Content::from(String::from("b")));
    match r {
        openai::Content::ContentParts(parts) => {
            let texts: Vec<_> = parts.iter().map(|p| openai_text(p).unwrap().to_string()).collect();
            assert_eq!(texts, vec!["a", "b"]);
        },
        _ => panic!("expected parts"),
    }
    let r = openai::Content::from(Vec::new()).combine(openai::Content::from(Vec::new()));
    assert!(matches!(r, openai::Content::ContentParts(ref p) if p.is_empty()));
}

#[test]
fn test_openai_inputs() {
    let audio = openai::AudioInput::new("base64data", OpenAIAudioFormat::Wav);
    assert_eq!(audio.data, "base64data");
    assert_eq!(audio.format, OpenAIAudioFormat::Wav);
    let file = openai::FileInput::from_file_data("my-file.txt", "data");
    assert_eq!(file.file_data.as_deref(), Some("data"));
    assert_eq!(file.filename.as_deref(), Some("my-file.txt"));
    assert_eq!(file.file_id, None);
    let file = openai::FileInput::from_file_id("file-123");
    assert_eq!(file.file_id.as_deref(), Some("file-123"));
    assert_eq!(file.file_data, None);
    assert_eq!(file.filename, None);
}

#[test]
fn test_openrouter_combine() {
    let a = openrouter::Content::from(openrouter::VideoInput::new("https://example.com/v.mp4"));
    let b = openrouter::Content::from("caption");
    match a.combine(b) {
        openrouter::Content::ContentParts(parts) => {
            assert_eq!(parts.len(), 2);
            assert!(matches!(&parts[0], openrouter::ContentPart::InputVideo { video_url } if video_url.url == "https://example.com/v.mp4"));
            assert!(matches!(&parts[1], openrouter::ContentPart::Text { text } if text == "caption"));
        },
        _ => panic!("expected parts"),
    }
    let audio = openrouter::AudioInput::new("AAA", openrouter::AudioFormat::Ogg);
    assert_eq!(audio.data, "AAA");
    assert_eq!(openrouter::ImageInput::from_url("u").url, "u");
}

#[test]
fn test_anthropic_combine() {
    let a = anthropic::Content::from("hello");
    let b = anthropic::Content::from(anthropic::ContentPart::from(anthropic::Text::new("world", None, None)));
    match a.combine(b) {
        anthropic::Content::Parts(parts) => {
            assert_eq!(parts.len(), 2);
            assert!(matches!(&parts[0], anthropic::ContentPart::Text(t) if t.text == "hello"));
            assert!(matches!(&parts[1], anthropic::ContentPart::Text(t) if t.text == "world"));
        },
        _ => panic!("expected parts"),
    }
}

fn texts(c: openai::Content) -> Vec<String> {
    match c {
        openai::Content::ContentParts(parts) => parts.iter().map(|p| openai_text(p).unwrap().to_string()).collect(),
        openai::Content::Text(t) => vec![t],
    }
}

#[test]
fn test_openai_combine_is_associative() {
    let mk = |s: &str| openai::Content::from(s);
    let left = mk("a").combine(mk("b")).combine(mk("c"));
    let right = mk("a").combine(mk("b").combine(mk("c")));
    assert_eq!(texts(left), texts(right));
}
