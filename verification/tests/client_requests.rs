use renfield::client::gemini::request::{
    GenerationConfig, MediaResolution, Modality, Request as GeminiRequest, SpeechConfig, ThinkingConfig,
    ToolConfig, VoiceConfig,
};
use renfield::client::gemini::safety::{HarmBlockThreshold, HarmCategory, SafetySettings};
use renfield::client::ollama::request::Request as OllamaRequest;
use renfield::client::openai::request::{AudioConfig, AudioFormat, Request as OpenAIRequest, StreamOptions, Voice};
use renfield::client::openrouter::request::{ReasoningEffort, ReasoningSummary, Request as OpenRouterRequest};
use renfield::client::openrouter::tools::{ToolCallChoice, ToolChoiceConfig, ToolChoiceMode};
use renfield::json::Json;

#[test]
fn test_gemini_generation_config_builders() {
    let req = GeminiRequest::from_model("gemini-2.5-flash")
        .max_output_tokens(100)
        .temperature(0.5f64.to_bits())
        .push_stop_sequence("END")
        .push_response_modality(Modality::Text)
        .seed(7);
    assert_eq!(req.model, "gemini-2.5-flash");
    let cfg = req.generation_config.as_ref().unwrap();
    assert_eq!(cfg.max_output_tokens, Some(100));
    assert_eq!(cfg.temperature.map(f64::from_bits), Some(0.5));
    assert_eq!(cfg.stop_sequences, vec!["END".to_string()]);
    assert_eq!(cfg.response_modalities, vec![Modality::Text]);
    assert_eq!(cfg.seed, Some(7));
    assert_eq!(cfg.candidate_count, None);

    let mut more = vec![Modality::Image, Modality::Audio];
    let req = req.append_response_modalities(&mut more).media_resolution(MediaResolution::MediaResolutionLow);
    assert!(more.is_empty());
    let cfg = req.generation_config.as_ref().unwrap();
    assert_eq!(cfg.response_modalities, vec![Modality::Text, Modality::Image, Modality::Audio]);
    assert_eq!(cfg.media_resolution, Some(MediaResolution::MediaResolutionLow));
    assert_eq!(cfg.max_output_tokens, Some(100));
}

#[test]
fn test_gemini_generation_config_replaced() {
    let req = GeminiRequest::from_model("m").seed(1).generation_config(GenerationConfig::default());
    assert!(req.generation_config.as_ref().unwrap().seed.is_none());
    let req = req.thinking_config(ThinkingConfig::new(true, Some(1024)));
    let cfg = req.generation_config.unwrap();
    assert_eq!(cfg.thinking_config, Some(ThinkingConfig { include_thoughts: true, thinking_budget: Some(1024) }));
}

#[test]
fn test_gemini_tool_config_merges() {
    let fc = Json::Str("function".to_string());
    let rc = Json::Str("retrieval".to_string());
    let a = GeminiRequest::from_model("m").function_calling_config(fc.clone()).retrieval_config(rc.clone());
    let b = GeminiRequest::from_model("m").retrieval_config(rc.clone()).function_calling_config(fc.clone());
    for req in [a, b] {
        let t = req.tool_config.unwrap();
        assert_eq!(t.function_calling_config, Some(fc.clone()));
        assert_eq!(t.retrieval_config, Some(rc.clone()));
    }
    let req = GeminiRequest::from_model("m")
        .retrieval_config(rc.clone())
        .tool_config(ToolConfig { function_calling_config: None, retrieval_config: None });
    let t = req.tool_config.unwrap();
    assert!(t.function_calling_config.is_none() && t.retrieval_config.is_none());
}

#[test]
fn test_gemini_lists_and_settings() {
    let mut settings = vec![SafetySettings::new(HarmCategory::Harassment, HarmBlockThreshold::BlockNone)];
    let req = GeminiRequest::from_model("m")
        .push_safety_setting(SafetySettings::new(HarmCategory::HateSpeech, HarmBlockThreshold::Off))
        .append_safety_settings(&mut settings)
        .push_content(Json::Null)
        .speech_config(SpeechConfig::from(VoiceConfig::from("Kore")))
        .cached_content("cachedContents/abc".to_string());
    assert!(settings.is_empty());
    assert_eq!(req.safety_settings.len(), 2);
    assert_eq!(req.safety_settings[0].category, HarmCategory::HateSpeech);
    assert_eq!(req.safety_settings[1].threshold, HarmBlockThreshold::BlockNone);
    assert_eq!(req.contents.len(), 1);
    assert_eq!(req.cached_content.as_deref(), Some("cachedContents/abc"));
    let speech = req.generation_config.unwrap().speech_config.unwrap();
    assert_eq!(speech.voice_config, Some(VoiceConfig::PrebuiltVoiceConfig { voice_name: "Kore".to_string() }));
}

#[test]
fn test_openai_request_builders() {
    let mut modalities = vec![renfield::client::openai::request::Modality::Text];
    let req = OpenAIRequest::from_model("model")
        .append_modalities(&mut modalities)
        .audio(AudioConfig::default())
        .max_completion_tokens(50)
        .stream(true)
        .stream_options(StreamOptions::new(true))
        .top_p(0.9f64.to_bits());
    assert!(modalities.is_empty());
    assert_eq!(req.modalities.len(), 1);
    assert_eq!(req.audio, Some(AudioConfig { format: AudioFormat::Wav, voice: Voice::Alloy }));
    assert_eq!(req.max_completion_tokens, Some(50));
    assert_eq!(req.stream, Some(true));
    assert_eq!(req.stream_options.unwrap().include_usage, Some(true));
    assert_eq!(req.top_p.map(f64::from_bits), Some(0.9));
    assert_eq!(AudioConfig::new(AudioFormat::Mp3, Voice::Nova).voice, Voice::Nova);
}

#[test]
fn test_openrouter_request_builders() {
    let req = OpenRouterRequest::from_models(vec!["a/one", "b/two"]).push_model("c/three");
    assert_eq!(req.model, None);
    assert_eq!(req.models, vec!["a/one".to_string(), "b/two".to_string(), "c/three".to_string()]);
    assert!(!req.stream);

    let x = OpenRouterRequest::from_model("m").reasoning_effort(ReasoningEffort::High).reasoning_summary(ReasoningSummary::Concise);
    let y = OpenRouterRequest::from_model("m").reasoning_summary(ReasoningSummary::Concise).reasoning_effort(ReasoningEffort::High);
    assert_eq!(x.reasoning, y.reasoning);
    let r = x.reasoning.unwrap();
    assert_eq!(r.effort, Some(ReasoningEffort::High));
    assert_eq!(r.summary, Some(ReasoningSummary::Concise));

    let req = OpenRouterRequest::from_model("m").tool_choice_mode(ToolChoiceMode::Required);
    assert_eq!(req.tool_choice, Some(ToolChoiceConfig::Mode(ToolChoiceMode::Required)));
    let req = req.tool_choice_object(ToolCallChoice::function("f"));
    assert_eq!(req.tool_choice, Some(ToolChoiceConfig::Object(ToolCallChoice::Function { name: "f".to_string() })));
    let req = req.stream(true).stream_options(false).user("u1");
    assert!(req.stream);
    assert_eq!(req.stream_options.unwrap().include_usage, Some(false));
    assert_eq!(req.user.as_deref(), Some("u1"));
}

#[test]
fn test_ollama_request_options() {
    let req = OllamaRequest::from_model("qwen3:0.6b").num_predict(10).think(false);
    assert_eq!(req.think, Some(false));
    let opts = req.options.as_ref().unwrap();
    assert_eq!(opts.num_predict, Some(10));
    assert_eq!(opts.seed, None);

    let mut stop = vec!["a".to_string(), "b".to_string()];
    let req = req.seed(-3).push_stop_sequence("x".to_string()).append_stop_sequences(&mut stop).temperature(0.25f64.to_bits());
    assert!(stop.is_empty());
    let opts = req.options.unwrap();
    assert_eq!(opts.seed, Some(-3));
    assert_eq!(opts.num_predict, Some(10));
    assert_eq!(opts.stop, vec!["x".to_string(), "a".to_string(), "b".to_string()]);
    assert_eq!(opts.temperature.map(f64::from_bits), Some(0.25));

    let mut stop = vec!["z".to_string()];
    let req = OllamaRequest::from_model("m").append_stop_sequences(&mut stop);
    assert!(stop.is_empty());
    assert_eq!(req.options.unwrap().stop, vec!["z".to_string()]);
}
