//! Generation request.
//!
//! Contents, tools and tool configurations are carried as JSON
//! documents; sampling parameters that the API takes as floating-point
//! numbers are carried as their IEEE-754 binary64 bit patterns.

use vstd::prelude::*;
use crate::json::{text, Json};
use super::safety::SafetySettings;

verus! {

/// Model response generation request.
#[derive(Debug)]
pub struct Request {
    /// The name of the model to use for generating the completion
    /// (not sent in the request body).
    pub model: String,
    /// The content of the current conversation with the model.
    pub contents: Vec<Json>,
    /// Tools the model may use to generate the next response.
    pub tools: Vec<Json>,
    /// Tool configuration for any tool specified in the request.
    pub tool_config: Option<ToolConfig>,
    /// Safety settings for blocking unsafe content.
    pub safety_settings: Vec<SafetySettings>,
    /// Developer set system instruction (text only).
    pub system_instruction: Option<Json>,
    /// Configuration options for model generation and outputs.
    pub generation_config: Option<GenerationConfig>,
    /// The name of the cached content to use as context, in the form
    /// `cachedContents/{cachedContent}`.
    pub cached_content: Option<String>,
}

/// Tool configuration: the function calling and retrieval
/// configurations.
#[derive(Debug)]
pub struct ToolConfig {
    pub function_calling_config: Option<Json>,
    pub retrieval_config: Option<Json>,
}

/// Configuration options for model generation and outputs. Not all
/// parameters are configurable for every model.
#[derive(Debug)]
pub struct GenerationConfig {
    /// Character sequences (up to 5) that stop output generation.
    pub stop_sequences: Vec<String>,
    /// MIME type of the generated candidate text.
    pub response_mime_type: Option<String>,
    /// Output schema of the generated candidate text.
    pub response_schema: Option<Json>,
    /// Output schema of the generated response, as JSON Schema.
    pub response_json_schema: Option<Json>,
    /// The requested modalities of the response.
    pub response_modalities: Vec<Modality>,
    /// Number of generated responses to return.
    pub candidate_count: Option<u64>,
    /// The maximum number of tokens to include in a response
    /// candidate.
    pub max_output_tokens: Option<u64>,
    /// Randomness of the output (bit pattern of a binary64 number).
    pub temperature: Option<u64>,
    /// Maximum cumulative probability of tokens to consider when
    /// sampling (bit pattern of a binary64 number).
    pub top_p: Option<u64>,
    /// Maximum number of tokens to consider when sampling.
    pub top_k: Option<i64>,
    /// Seed used in decoding.
    pub seed: Option<u64>,
    /// Presence penalty (bit pattern of a binary64 number).
    pub presence_penalty: Option<u64>,
    /// Frequency penalty (bit pattern of a binary64 number).
    pub frequency_penalty: Option<u64>,
    /// Enables enhanced civic answers.
    pub enable_enhanced_civic_answers: Option<bool>,
    /// The speech generation config.
    pub speech_config: Option<SpeechConfig>,
    /// Config for thinking features.
    pub thinking_config: Option<ThinkingConfig>,
    /// Config for image generation.
    pub image_config: Option<ImageConfig>,
    /// Media resolution of the input media.
    pub media_resolution: Option<MediaResolution>,
}

impl GenerationConfig {
    /// Whether no option of `self` is set.
    pub open spec fn options_unset(self) -> bool {
        &&& self.response_mime_type is None
        &&& self.response_schema is None
        &&& self.response_json_schema is None
        &&& self.candidate_count is None
        &&& self.max_output_tokens is None
        &&& self.temperature is None
        &&& self.top_p is None
        &&& self.top_k is None
        &&& self.seed is None
        &&& self.presence_penalty is None
        &&& self.frequency_penalty is None
        &&& self.enable_enhanced_civic_answers is None
        &&& self.speech_config is None
        &&& self.thinking_config is None
        &&& self.image_config is None
        &&& self.media_resolution is None
    }

    /// Whether `self` is the default configuration: no option set and
    /// no stop sequence or response modality.
    pub open spec fn is_default(self) -> bool {
        &&& self.options_unset()
        &&& self.stop_sequences@.len() == 0
        &&& self.response_modalities@.len() == 0
    }
}

impl Default for GenerationConfig {
    fn default() -> (r: Self)
        ensures
            r.is_default(),
    {
        GenerationConfig {
            stop_sequences: Vec::new(),
            response_mime_type: None,
            response_schema: None,
            response_json_schema: None,
            response_modalities: Vec::new(),
            candidate_count: None,
            max_output_tokens: None,
            temperature: None,
            top_p: None,
            top_k: None,
            seed: None,
            presence_penalty: None,
            frequency_penalty: None,
            enable_enhanced_civic_answers: None,
            speech_config: None,
            thinking_config: None,
            image_config: None,
            media_resolution: None,
        }
    }
}

/// The generation config of a request, or the default configuration
/// where it has none; the request is left without one.
fn take_config(config: &mut Option<GenerationConfig>) -> (r: GenerationConfig)
    ensures
        *final(config) is None,
        *old(config) matches Some(c) ==> r == c,
        *old(config) is None ==> r.is_default(),
{
    match config.take() {
        Some(c) => c,
        None => GenerationConfig::default(),
    }
}

impl Request {
    /// The stop sequences of the generation config, if any.
    pub open spec fn stop_sequences_spec(self) -> Seq<String> {
        match self.generation_config {
            Some(c) => c.stop_sequences@,
            None => Seq::empty(),
        }
    }

    /// The response modalities of the generation config, if any.
    pub open spec fn response_modalities_spec(self) -> Seq<Modality> {
        match self.generation_config {
            Some(c) => c.response_modalities@,
            None => Seq::empty(),
        }
    }

    /// Whether `after` is `before` with the function calling config of
    /// its tool config set to `config`, and the retrieval config kept.
    pub open spec fn sets_function_calling_config(before: Request, config: Json, after: Request) -> bool {
        &&& after == (Request { tool_config: after.tool_config, ..before })
        &&& after.tool_config matches Some(t) && t.function_calling_config == Some(config) && match before.tool_config {
            Some(old_t) => t.retrieval_config == old_t.retrieval_config,
            None => t.retrieval_config is None,
        }
    }

    /// Whether `after` is `before` with the retrieval config of its
    /// tool config set to `config`, and the function calling config
    /// kept.
    pub open spec fn sets_retrieval_config(before: Request, config: Json, after: Request) -> bool {
        &&& after == (Request { tool_config: after.tool_config, ..before })
        &&& after.tool_config matches Some(t) && t.retrieval_config == Some(config) && match before.tool_config {
            Some(old_t) => t.function_calling_config == old_t.function_calling_config,
            None => t.function_calling_config is None,
        }
    }

    /// A request for `model`, with nothing else set.
    pub fn from_model(model: &str) -> (r: Self)
        ensures
            r.model@ == model@,
            r.contents@.len() == 0,
            r.tools@.len() == 0,
            r.tool_config is None,
            r.safety_settings@.len() == 0,
            r.system_instruction is None,
            r.generation_config is None,
            r.cached_content is None,
    {
        Request {
            model: text(model),
            contents: Vec::new(),
            tools: Vec::new(),
            tool_config: None,
            safety_settings: Vec::new(),
            system_instruction: None,
            generation_config: None,
            cached_content: None,
        }
    }

    /// Pushes content to the conversation history.
    pub fn push_content(self, content: Json) -> (r: Self)
        ensures
            r == (Request { contents: r.contents, ..self }),
            r.contents@ == self.contents@.push(content),
    {
        let mut req = self;
        req.contents.push(content);
        req
    }

    /// Appends contents to the conversation history, leaving
    /// `contents` empty.
    pub fn append_content(self, contents: &mut Vec<Json>) -> (r: Self)
        ensures
            r == (Request { contents: r.contents, ..self }),
            r.contents@ == self.contents@ + old(contents)@,
            final(contents)@.len() == 0,
    {
        let mut req = self;
        req.contents.append(contents);
        req
    }

    /// Pushes a tool to the available tools.
    pub fn push_tool(self, tool: Json) -> (r: Self)
        ensures
            r == (Request { tools: r.tools, ..self }),
            r.tools@ == self.tools@.push(tool),
    {
        let mut req = self;
        req.tools.push(tool);
        req
    }

    /// Appends tools to the available tools, leaving `tools` empty.
    pub fn append_tools(self, tools: &mut Vec<Json>) -> (r: Self)
        ensures
            r == (Request { tools: r.tools, ..self }),
            r.tools@ == self.tools@ + old(tools)@,
            final(tools)@.len() == 0,
    {
        let mut req = self;
        req.tools.append(tools);
        req
    }

    /// Sets the tool config, replacing both its function calling and
    /// its retrieval config.
    pub fn tool_config(self, config: ToolConfig) -> (r: Self)
        ensures
            r == (Request { tool_config: Some(config), ..self }),
    {
        Request { tool_config: Some(config), ..self }
    }

    /// Sets the function calling config of the tool config, keeping its
    /// retrieval config.
    pub fn function_calling_config(self, config: Json) -> (r: Self)
        ensures
            Request::sets_function_calling_config(self, config, r),
    {
        let mut req = self;
        match req.tool_config.take() {
            Some(t) => {
                req.tool_config = Some(ToolConfig { function_calling_config: Some(config), ..t });
            },
            None => {
                req.tool_config = Some(ToolConfig { function_calling_config: Some(config), retrieval_config: None });
            },
        }
        req
    }

    /// Sets the retrieval config of the tool config, keeping its
    /// function calling config.
    pub fn retrieval_config(self, config: Json) -> (r: Self)
        ensures
            Request::sets_retrieval_config(self, config, r),
    {
        let mut req = self;
        match req.tool_config.take() {
            Some(t) => {
                req.tool_config = Some(ToolConfig { retrieval_config: Some(config), ..t });
            },
            None => {
                req.tool_config = Some(ToolConfig { function_calling_config: None, retrieval_config: Some(config) });
            },
        }
        req
    }

    /// Pushes a safety setting.
    pub fn push_safety_setting(self, setting: SafetySettings) -> (r: Self)
        ensures
            r == (Request { safety_settings: r.safety_settings, ..self }),
            r.safety_settings@ == self.safety_settings@.push(setting),
    {
        let mut req = self;
        req.safety_settings.push(setting);
        req
    }

    /// Appends safety settings, leaving `settings` empty.
    pub fn append_safety_settings(self, settings: &mut Vec<SafetySettings>) -> (r: Self)
        ensures
            r == (Request { safety_settings: r.safety_settings, ..self }),
            r.safety_settings@ == self.safety_settings@ + old(settings)@,
            final(settings)@.len() == 0,
    {
        let mut req = self;
        req.safety_settings.append(settings);
        req
    }

    /// Sets the system instruction.
    pub fn system_instruction(self, content: Json) -> (r: Self)
        ensures
            r == (Request { system_instruction: Some(content), ..self }),
    {
        Request { system_instruction: Some(content), ..self }
    }

    /// Sets the generation config.
    pub fn generation_config(self, config: GenerationConfig) -> (r: Self)
        ensures
            r == (Request { generation_config: Some(config), ..self }),
    {
        Request { generation_config: Some(config), ..self }
    }

    /// Sets the cached content.
    pub fn cached_content(self, cached_content: String) -> (r: Self)
        ensures
            r == (Request { cached_content: Some(cached_content), ..self }),
    {
        Request { cached_content: Some(cached_content), ..self }
    }

    /// Pushes a stop sequence to the generation config, which is
    /// created where there is none.
    pub fn push_stop_sequence(self, sequence: &str) -> (r: Self)
        ensures
            r == (Request { generation_config: r.generation_config, ..self }),
            r.generation_config matches Some(c) && c.stop_sequences@.len() == self.stop_sequences_spec().len() + 1
                && c.stop_sequences@.drop_last() == self.stop_sequences_spec()
                && c.stop_sequences@.last()@ == sequence@ && match self.generation_config {
                Some(p) => c == (GenerationConfig { stop_sequences: c.stop_sequences, ..p }),
                None => c.options_unset() && c.response_modalities@.len() == 0,
            },
    {
        let mut req = self;
        let mut cfg = take_config(&mut req.generation_config);
        cfg.stop_sequences.push(text(sequence));
        req.generation_config = Some(cfg);
        req
    }

    /// Pushes a response modality to the generation config, which is
    /// created where there is none.
    pub fn push_response_modality(self, modality: Modality) -> (r: Self)
        ensures
            r == (Request { generation_config: r.generation_config, ..self }),
            r.generation_config matches Some(c) && c.response_modalities@ == self.response_modalities_spec().push(
                modality,
            ) && match self.generation_config {
                Some(p) => c == (GenerationConfig { response_modalities: c.response_modalities, ..p }),
                None => c.options_unset() && c.stop_sequences@.len() == 0,
            },
    {
        let mut req = self;
        let mut cfg = take_config(&mut req.generation_config);
        cfg.response_modalities.push(modality);
        req.generation_config = Some(cfg);
        req
    }

    /// Appends response modalities to the generation config, which is
    /// created where there is none; `modalities` is left empty.
    pub fn append_response_modalities(self, modalities: &mut Vec<Modality>) -> (r: Self)
        ensures
            r == (Request { generation_config: r.generation_config, ..self }),
            final(modalities)@.len() == 0,
            r.generation_config matches Some(c) && c.response_modalities@ == self.response_modalities_spec()
                + old(modalities)@ && match self.generation_config {
                Some(p) => c == (GenerationConfig { response_modalities: c.response_modalities, ..p }),
                None => c.options_unset() && c.stop_sequences@.len() == 0,
            },
    {
        let mut req = self;
        let mut cfg = take_config(&mut req.generation_config);
        cfg.response_modalities.append(modalities);
        req.generation_config = Some(cfg);
        req
    }

    /// Sets the response MIME type of the generation config, which is created where
    /// there is none.
    pub fn response_mime_type(self, mime_type: &str) -> (r: Self)
        ensures
            r == (Request { generation_config: r.generation_config, ..self }),
            r.generation_config matches Some(c) && c.response_mime_type matches Some(m) && m@ == mime_type@ && match self.generation_config {
                Some(p) => c == (GenerationConfig { response_mime_type: c.response_mime_type, ..p }),
                None => (GenerationConfig { response_mime_type: None, ..c }).is_default(),
            },
    {
        let mut req = self;
        let mut cfg = take_config(&mut req.generation_config);
        cfg.response_mime_type = Some(text(mime_type));
        req.generation_config = Some(cfg);
        req
    }

    /// Sets the response schema of the generation config, which is created where
    /// there is none.
    pub fn response_schema(self, schema: Json) -> (r: Self)
        ensures
            r == (Request { generation_config: r.generation_config, ..self }),
            r.generation_config matches Some(c) && c.response_schema == Some(schema) && match self.generation_config {
                Some(p) => c == (GenerationConfig { response_schema: c.response_schema, ..p }),
                None => (GenerationConfig { response_schema: None, ..c }).is_default(),
            },
    {
        let mut req = self;
        let mut cfg = take_config(&mut req.generation_config);
        cfg.response_schema = Some(schema);
        req.generation_config = Some(cfg);
        req
    }

    /// Sets the response JSON schema of the generation config, which is created where
    /// there is none.
    pub fn response_json_schema(self, schema: Json) -> (r: Self)
        ensures
            r == (Request { generation_config: r.generation_config, ..self }),
            r.generation_config matches Some(c) && c.response_json_schema == Some(schema) && match self.generation_config {
                Some(p) => c == (GenerationConfig { response_json_schema: c.response_json_schema, ..p }),
                None => (GenerationConfig { response_json_schema: None, ..c }).is_default(),
            },
    {
        let mut req = self;
        let mut cfg = take_config(&mut req.generation_config);
        cfg.response_json_schema = Some(schema);
        req.generation_config = Some(cfg);
        req
    }

    /// Sets the candidate count of the generation config, which is created where
    /// there is none.
    pub fn candidate_count(self, count: u64) -> (r: Self)
        ensures
            r == (Request { generation_config: r.generation_config, ..self }),
            r.generation_config matches Some(c) && c.candidate_count == Some(count) && match self.generation_config {
                Some(p) => c == (GenerationConfig { candidate_count: c.candidate_count, ..p }),
                None => (GenerationConfig { candidate_count: None, ..c }).is_default(),
            },
    {
        let mut req = self;
        let mut cfg = take_config(&mut req.generation_config);
        cfg.candidate_count = Some(count);
        req.generation_config = Some(cfg);
        req
    }

    /// Sets the maximum number of output tokens of the generation config, which is created where
    /// there is none.
    pub fn max_output_tokens(self, tokens: u64) -> (r: Self)
        ensures
            r == (Request { generation_config: r.generation_config, ..self }),
            r.generation_config matches Some(c) && c.max_output_tokens == Some(tokens) && match self.generation_config {
                Some(p) => c == (GenerationConfig { max_output_tokens: c.max_output_tokens, ..p }),
                None => (GenerationConfig { max_output_tokens: None, ..c }).is_default(),
            },
    {
        let mut req = self;
        let mut cfg = take_config(&mut req.generation_config);
        cfg.max_output_tokens = Some(tokens);
        req.generation_config = Some(cfg);
        req
    }

    /// Sets the temperature, given by its binary64 bit pattern of the generation config, which is created where
    /// there is none.
    pub fn temperature(self, temp_bits: u64) -> (r: Self)
        ensures
            r == (Request { generation_config: r.generation_config, ..self }),
            r.generation_config matches Some(c) && c.temperature == Some(temp_bits) && match self.generation_config {
                Some(p) => c == (GenerationConfig { temperature: c.temperature, ..p }),
                None => (GenerationConfig { temperature: None, ..c }).is_default(),
            },
    {
        let mut req = self;
        let mut cfg = take_config(&mut req.generation_config);
        cfg.temperature = Some(temp_bits);
        req.generation_config = Some(cfg);
        req
    }

    /// Sets the `top_p` sampling parameter, given by its binary64 bit pattern of the generation config, which is created where
    /// there is none.
    pub fn top_p(self, top_p_bits: u64) -> (r: Self)
        ensures
            r == (Request { generation_config: r.generation_config, ..self }),
            r.generation_config matches Some(c) && c.top_p == Some(top_p_bits) && match self.generation_config {
                Some(p) => c == (GenerationConfig { top_p: c.top_p, ..p }),
                None => (GenerationConfig { top_p: None, ..c }).is_default(),
            },
    {
        let mut req = self;
        let mut cfg = take_config(&mut req.generation_config);
        cfg.top_p = Some(top_p_bits);
        req.generation_config = Some(cfg);
        req
    }

    /// Sets the generation seed of the generation config, which is created where
    /// there is none.
    pub fn seed(self, seed: u64) -> (r: Self)
        ensures
            r == (Request { generation_config: r.generation_config, ..self }),
            r.generation_config matches Some(c) && c.seed == Some(seed) && match self.generation_config {
                Some(p) => c == (GenerationConfig { seed: c.seed, ..p }),
                None => (GenerationConfig { seed: None, ..c }).is_default(),
            },
    {
        let mut req = self;
        let mut cfg = take_config(&mut req.generation_config);
        cfg.seed = Some(seed);
        req.generation_config = Some(cfg);
        req
    }

    /// Sets the presence penalty, given by its binary64 bit pattern of the generation config, which is created where
    /// there is none.
    pub fn presence_penalty(self, penalty_bits: u64) -> (r: Self)
        ensures
            r == (Request { generation_config: r.generation_config, ..self }),
            r.generation_config matches Some(c) && c.presence_penalty == Some(penalty_bits) && match self.generation_config {
                Some(p) => c == (GenerationConfig { presence_penalty: c.presence_penalty, ..p }),
                None => (GenerationConfig { presence_penalty: None, ..c }).is_default(),
            },
    {
        let mut req = self;
        let mut cfg = take_config(&mut req.generation_config);
        cfg.presence_penalty = Some(penalty_bits);
        req.generation_config = Some(cfg);
        req
    }

    /// Sets the frequency penalty, given by its binary64 bit pattern of the generation config, which is created where
    /// there is none.
    pub fn frequency_penalty(self, penalty_bits: u64) -> (r: Self)
        ensures
            r == (Request { generation_config: r.generation_config, ..self }),
            r.generation_config matches Some(c) && c.frequency_penalty == Some(penalty_bits) && match self.generation_config {
                Some(p) => c == (GenerationConfig { frequency_penalty: c.frequency_penalty, ..p }),
                None => (GenerationConfig { frequency_penalty: None, ..c }).is_default(),
            },
    {
        let mut req = self;
        let mut cfg = take_config(&mut req.generation_config);
        cfg.frequency_penalty = Some(penalty_bits);
        req.generation_config = Some(cfg);
        req
    }

    /// Enables or disables enhanced civic answers of the generation config, which is created where
    /// there is none.
    pub fn enhanced_civic_answers(self, enable: bool) -> (r: Self)
        ensures
            r == (Request { generation_config: r.generation_config, ..self }),
            r.generation_config matches Some(c) && c.enable_enhanced_civic_answers == Some(enable) && match self.generation_config {
                Some(p) => c == (GenerationConfig { enable_enhanced_civic_answers: c.enable_enhanced_civic_answers, ..p }),
                None => (GenerationConfig { enable_enhanced_civic_answers: None, ..c }).is_default(),
            },
    {
        let mut req = self;
        let mut cfg = take_config(&mut req.generation_config);
        cfg.enable_enhanced_civic_answers = Some(enable);
        req.generation_config = Some(cfg);
        req
    }

    /// Sets the speech config of the generation config, which is created where
    /// there is none.
    pub fn speech_config(self, config: SpeechConfig) -> (r: Self)
        ensures
            r == (Request { generation_config: r.generation_config, ..self }),
            r.generation_config matches Some(c) && c.speech_config == Some(config) && match self.generation_config {
                Some(p) => c == (GenerationConfig { speech_config: c.speech_config, ..p }),
                None => (GenerationConfig { speech_config: None, ..c }).is_default(),
            },
    {
        let mut req = self;
        let mut cfg = take_config(&mut req.generation_config);
        cfg.speech_config = Some(config);
        req.generation_config = Some(cfg);
        req
    }

    /// Sets the thinking config of the generation config, which is created where
    /// there is none.
    pub fn thinking_config(self, config: ThinkingConfig) -> (r: Self)
        ensures
            r == (Request { generation_config: r.generation_config, ..self }),
            r.generation_config matches Some(c) && c.thinking_config == Some(config) && match self.generation_config {
                Some(p) => c == (GenerationConfig { thinking_config: c.thinking_config, ..p }),
                None => (GenerationConfig { thinking_config: None, ..c }).is_default(),
            },
    {
        let mut req = self;
        let mut cfg = take_config(&mut req.generation_config);
        cfg.thinking_config = Some(config);
        req.generation_config = Some(cfg);
        req
    }

    /// Sets the image config of the generation config, which is created where
    /// there is none.
    pub fn image_config(self, config: ImageConfig) -> (r: Self)
        ensures
            r == (Request { generation_config: r.generation_config, ..self }),
            r.generation_config matches Some(c) && c.image_config == Some(config) && match self.generation_config {
                Some(p) => c == (GenerationConfig { image_config: c.image_config, ..p }),
                None => (GenerationConfig { image_config: None, ..c }).is_default(),
            },
    {
        let mut req = self;
        let mut cfg = take_config(&mut req.generation_config);
        cfg.image_config = Some(config);
        req.generation_config = Some(cfg);
        req
    }

    /// Sets the media resolution of the generation config, which is created where
    /// there is none.
    pub fn media_resolution(self, res: MediaResolution) -> (r: Self)
        ensures
            r == (Request { generation_config: r.generation_config, ..self }),
            r.generation_config matches Some(c) && c.media_resolution == Some(res) && match self.generation_config {
                Some(p) => c == (GenerationConfig { media_resolution: c.media_resolution, ..p }),
                None => (GenerationConfig { media_resolution: None, ..c }).is_default(),
            },
    {
        let mut req = self;
        let mut cfg = take_config(&mut req.generation_config);
        cfg.media_resolution = Some(res);
        req.generation_config = Some(cfg);
        req
    }
}

/// Setting the function calling config and the retrieval config of a
/// request gives the same request in either order: each keeps the
/// other.
pub proof fn lemma_tool_config_setters_commute(
    req: Request,
    function_calling: Json,
    retrieval: Json,
    x: Request,
    y: Request,
    u: Request,
    v: Request,
)
    requires
        Request::sets_function_calling_config(req, function_calling, x),
        Request::sets_retrieval_config(x, retrieval, y),
        Request::sets_retrieval_config(req, retrieval, u),
        Request::sets_function_calling_config(u, function_calling, v),
    ensures
        y == v,
        y.tool_config matches Some(t) && t.function_calling_config == Some(function_calling)
            && t.retrieval_config == Some(retrieval),
{
}

/// The response modalities.
#[derive(Debug, Clone, Copy, PartialEq, Eq, Structural)]
pub enum Modality {
    Text,
    Image,
    Audio,
}

/// The speech generation config.
#[derive(Debug, Clone, PartialEq, Eq)]
pub struct SpeechConfig {
    /// The configuration for a single-voice output.
    pub voice_config: Option<VoiceConfig>,
    /// The configuration for a multi-speaker setup.
    pub multi_speaker_voice_config: Option<MultiSpeakerVoiceConfig>,
    /// Language code (in BCP 47 format, e.g. `en-US`) for speech
    /// synthesis.
    pub language_code: Option<String>,
}

impl Default for SpeechConfig {
    fn default() -> (r: Self)
        ensures
            r.voice_config is None,
            r.multi_speaker_voice_config is None,
            r.language_code is None,
    {
        SpeechConfig { voice_config: None, multi_speaker_voice_config: None, language_code: None }
    }
}

impl vstd::std_specs::convert::FromSpecImpl<VoiceConfig> for SpeechConfig {
    open spec fn obeys_from_spec() -> bool {
        true
    }

    open spec fn from_spec(value: VoiceConfig) -> Self {
        SpeechConfig { voice_config: Some(value), multi_speaker_voice_config: None, language_code: None }
    }
}

impl From<VoiceConfig> for SpeechConfig {
    fn from(value: VoiceConfig) -> Self {
        SpeechConfig { voice_config: Some(value), multi_speaker_voice_config: None, language_code: None }
    }
}

impl vstd::std_specs::convert::FromSpecImpl<MultiSpeakerVoiceConfig> for SpeechConfig {
    open spec fn obeys_from_spec() -> bool {
        true
    }

    open spec fn from_spec(value: MultiSpeakerVoiceConfig) -> Self {
        SpeechConfig { voice_config: None, multi_speaker_voice_config: Some(value), language_code: None }
    }
}

impl From<MultiSpeakerVoiceConfig> for SpeechConfig {
    fn from(value: MultiSpeakerVoiceConfig) -> Self {
        SpeechConfig { voice_config: None, multi_speaker_voice_config: Some(value), language_code: None }
    }
}

/// The configuration for the voice to use.
#[derive(Debug, Clone, PartialEq, Eq)]
pub enum VoiceConfig {
    /// The configuration of a prebuilt voice.
    PrebuiltVoiceConfig {
        /// The name of the preset voice to use.
        voice_name: String,
    },
}

impl vstd::std_specs::convert::FromSpecImpl<String> for VoiceConfig {
    open spec fn obeys_from_spec() -> bool {
        true
    }

    open spec fn from_spec(value: String) -> Self {
        VoiceConfig::PrebuiltVoiceConfig { voice_name: value }
    }
}

impl From<String> for VoiceConfig {
    fn from(value: String) -> Self {
        VoiceConfig::PrebuiltVoiceConfig { voice_name: value }
    }
}

impl vstd::std_specs::convert::FromSpecImpl<&str> for VoiceConfig {
    open spec fn obeys_from_spec() -> bool {
        false
    }

    open spec fn from_spec(value: &str) -> Self {
        vstd::pervasive::arbitrary()
    }
}

impl From<&str> for VoiceConfig {
    fn from(value: &str) -> (r: Self)
        ensures
            r matches VoiceConfig::PrebuiltVoiceConfig { voice_name } && voice_name@ == value@,
    {
        VoiceConfig::PrebuiltVoiceConfig { voice_name: text(value) }
    }
}

/// The configuration for a multi-speaker setup.
#[derive(Debug, Clone, PartialEq, Eq)]
pub struct MultiSpeakerVoiceConfig {
    /// All the enabled speaker voices.
    pub speaker_voice_configs: Vec<SpeakerVoiceConfig>,
}

impl vstd::std_specs::convert::FromSpecImpl<Vec<SpeakerVoiceConfig>> for MultiSpeakerVoiceConfig {
    open spec fn obeys_from_spec() -> bool {
        true
    }

    open spec fn from_spec(value: Vec<SpeakerVoiceConfig>) -> Self {
        MultiSpeakerVoiceConfig { speaker_voice_configs: value }
    }
}

impl From<Vec<SpeakerVoiceConfig>> for MultiSpeakerVoiceConfig {
    fn from(value: Vec<SpeakerVoiceConfig>) -> Self {
        MultiSpeakerVoiceConfig { speaker_voice_configs: value }
    }
}

/// The configuration for a single speaker in a multi-speaker setup.
#[derive(Debug, Clone, PartialEq, Eq)]
pub struct SpeakerVoiceConfig {
    /// The name of the speaker to use; the same as in the prompt.
    pub speaker: String,
    /// The configuration for the voice to use.
    pub voice_config: VoiceConfig,
}

/// Config for thinking features.
#[derive(Debug, Clone, Copy, PartialEq, Eq, Structural)]
pub struct ThinkingConfig {
    /// Whether to include thoughts in the response.
    pub include_thoughts: bool,
    /// The number of thought tokens that the model should generate.
    pub thinking_budget: Option<u64>,
}

impl ThinkingConfig {
    /// A thinking config.
    pub fn new(include_thoughts: bool, thinking_budget: Option<u64>) -> (r: Self)
        ensures
            r.include_thoughts == include_thoughts,
            r.thinking_budget == thinking_budget,
    {
        ThinkingConfig { include_thoughts, thinking_budget }
    }
}

/// Config for image generation.
#[derive(Debug, Clone, PartialEq, Eq)]
pub struct ImageConfig {
    /// The aspect ratio of the image to generate, such as `16:9`.
    pub aspect_ratio: Option<String>,
}

/// Media resolution for the input media.
#[derive(Debug, Clone, Copy, PartialEq, Eq, Structural)]
pub enum MediaResolution {
    MediaResolutionLow,
    MediaResolutionMedium,
    MediaResolutionHigh,
}

} // verus!
