//! Chat completion request.
//!
//! Sampling parameters that the API takes as floating-point numbers
//! are carried as their IEEE-754 binary64 bit patterns.

use vstd::prelude::*;
use crate::json::{text, Json};
use super::message::Message;

verus! {

/// Chat completion request.
#[derive(Debug)]
pub struct Request {
    /// The conversation so far.
    pub messages: Vec<Message>,
    /// Model ID used to generate the response.
    pub model: String,
    /// Parameters for audio output.
    pub audio: Option<AudioConfig>,
    /// Frequency penalty, between -2.0 and 2.0 (bit pattern of a
    /// binary64 number).
    pub frequency_penalty: Option<u64>,
    /// An upper bound for the number of tokens that can be generated.
    pub max_completion_tokens: Option<i64>,
    /// Output types that the model should generate.
    pub modalities: Vec<Modality>,
    /// How many chat completion choices to generate.
    pub n: Option<i64>,
    /// Whether to enable parallel function calling during tool use.
    pub parallel_tool_calls: Option<bool>,
    /// Presence penalty, between -2.0 and 2.0 (bit pattern of a
    /// binary64 number).
    pub presence_penalty: Option<u64>,
    /// Constrains effort on reasoning for reasoning models.
    pub reasoning_effort: Option<ReasoningEffort>,
    /// Specifies the processing type used for serving the request.
    pub service_tier: Option<ServiceTier>,
    /// Whether to stream the response.
    pub stream: Option<bool>,
    /// Options for streaming responses.
    pub stream_options: Option<StreamOptions>,
    /// Sampling temperature, between 0 and 2 (bit pattern of a
    /// binary64 number).
    pub temperature: Option<u64>,
    /// Tools the model may call.
    pub tools: Vec<Json>,
    /// Nucleus sampling probability mass (bit pattern of a binary64
    /// number).
    pub top_p: Option<u64>,
    /// Constrains the verbosity of the model's response.
    pub verbosity: Option<Verbosity>,
}

impl Request {
    /// A request for `model`, with nothing else set.
    pub fn from_model(model: &str) -> (r: Self)
        ensures
            r.model@ == model@,
            r.messages@.len() == 0,
            r.modalities@.len() == 0,
            r.tools@.len() == 0,
            r.audio is None,
            r.frequency_penalty is None,
            r.max_completion_tokens is None,
            r.n is None,
            r.parallel_tool_calls is None,
            r.presence_penalty is None,
            r.reasoning_effort is None,
            r.service_tier is None,
            r.stream is None,
            r.stream_options is None,
            r.temperature is None,
            r.top_p is None,
            r.verbosity is None,
    {
        Request {
            messages: Vec::new(),
            model: text(model),
            audio: None,
            frequency_penalty: None,
            max_completion_tokens: None,
            modalities: Vec::new(),
            n: None,
            parallel_tool_calls: None,
            presence_penalty: None,
            reasoning_effort: None,
            service_tier: None,
            stream: None,
            stream_options: None,
            temperature: None,
            tools: Vec::new(),
            top_p: None,
            verbosity: None,
        }
    }

    /// Pushes a message to the conversation.
    pub fn push_message(self, message: Message) -> (r: Self)
        ensures
            r == (Request { messages: r.messages, ..self }),
            r.messages@ == self.messages@.push(message),
    {
        let mut req = self;
        req.messages.push(message);
        req
    }

    /// Appends messages to the conversation, leaving `other` empty.
    pub fn append_messages(self, other: &mut Vec<Message>) -> (r: Self)
        ensures
            r == (Request { messages: r.messages, ..self }),
            r.messages@ == self.messages@ + old(other)@,
            final(other)@.len() == 0,
    {
        let mut req = self;
        req.messages.append(other);
        req
    }

    /// Sets the audio output parameters.
    pub fn audio(self, audio: AudioConfig) -> (r: Self)
        ensures
            r == (Request { audio: Some(audio), ..self }),
    {
        Request { audio: Some(audio), ..self }
    }

    /// Sets the frequency penalty, given by its binary64 bit pattern.
    pub fn frequency_penalty(self, penalty_bits: u64) -> (r: Self)
        ensures
            r == (Request { frequency_penalty: Some(penalty_bits), ..self }),
    {
        Request { frequency_penalty: Some(penalty_bits), ..self }
    }

    /// Sets the maximum number of completion tokens.
    pub fn max_completion_tokens(self, tokens: i64) -> (r: Self)
        ensures
            r == (Request { max_completion_tokens: Some(tokens), ..self }),
    {
        Request { max_completion_tokens: Some(tokens), ..self }
    }

    /// Pushes an output modality.
    pub fn push_modality(self, modality: Modality) -> (r: Self)
        ensures
            r == (Request { modalities: r.modalities, ..self }),
            r.modalities@ == self.modalities@.push(modality),
    {
        let mut req = self;
        req.modalities.push(modality);
        req
    }

    /// Appends output modalities, leaving `other` empty.
    pub fn append_modalities(self, other: &mut Vec<Modality>) -> (r: Self)
        ensures
            r == (Request { modalities: r.modalities, ..self }),
            r.modalities@ == self.modalities@ + old(other)@,
            final(other)@.len() == 0,
    {
        let mut req = self;
        req.modalities.append(other);
        req
    }

    /// Sets the number of choices to generate.
    pub fn n(self, n: i64) -> (r: Self)
        ensures
            r == (Request { n: Some(n), ..self }),
    {
        Request { n: Some(n), ..self }
    }

    /// Enables or disables parallel tool calls.
    pub fn parallel_tool_calls(self, enable: bool) -> (r: Self)
        ensures
            r == (Request { parallel_tool_calls: Some(enable), ..self }),
    {
        Request { parallel_tool_calls: Some(enable), ..self }
    }

    /// Sets the presence penalty, given by its binary64 bit pattern.
    pub fn presence_penalty(self, penalty_bits: u64) -> (r: Self)
        ensures
            r == (Request { presence_penalty: Some(penalty_bits), ..self }),
    {
        Request { presence_penalty: Some(penalty_bits), ..self }
    }

    /// Sets the reasoning effort.
    pub fn reasoning_effort(self, effort: ReasoningEffort) -> (r: Self)
        ensures
            r == (Request { reasoning_effort: Some(effort), ..self }),
    {
        Request { reasoning_effort: Some(effort), ..self }
    }

    /// Sets the service tier.
    pub fn service_tier(self, service_tier: ServiceTier) -> (r: Self)
        ensures
            r == (Request { service_tier: Some(service_tier), ..self }),
    {
        Request { service_tier: Some(service_tier), ..self }
    }

    /// Enables or disables streaming.
    pub fn stream(self, enable: bool) -> (r: Self)
        ensures
            r == (Request { stream: Some(enable), ..self }),
    {
        Request { stream: Some(enable), ..self }
    }

    /// Sets the streaming options.
    pub fn stream_options(self, options: StreamOptions) -> (r: Self)
        ensures
            r == (Request { stream_options: Some(options), ..self }),
    {
        Request { stream_options: Some(options), ..self }
    }

    /// Sets the temperature, given by its binary64 bit pattern.
    pub fn temperature(self, temp_bits: u64) -> (r: Self)
        ensures
            r == (Request { temperature: Some(temp_bits), ..self }),
    {
        Request { temperature: Some(temp_bits), ..self }
    }

    /// Pushes a tool.
    pub fn push_tool(self, tool: Json) -> (r: Self)
        ensures
            r == (Request { tools: r.tools, ..self }),
            r.tools@ == self.tools@.push(tool),
    {
        let mut req = self;
        req.tools.push(tool);
        req
    }

    /// Appends tools, leaving `tools` empty.
    pub fn append_tools(self, tools: &mut Vec<Json>) -> (r: Self)
        ensures
            r == (Request { tools: r.tools, ..self }),
            r.tools@ == self.tools@ + old(tools)@,
            final(tools)@.len() == 0,
    {
        let mut req = self;
        req.tools.append(tools);
        req
    }

    /// Sets `top_p`, given by its binary64 bit pattern.
    pub fn top_p(self, top_p_bits: u64) -> (r: Self)
        ensures
            r == (Request { top_p: Some(top_p_bits), ..self }),
    {
        Request { top_p: Some(top_p_bits), ..self }
    }

    /// Sets the verbosity.
    pub fn verbosity(self, verbosity: Verbosity) -> (r: Self)
        ensures
            r == (Request { verbosity: Some(verbosity), ..self }),
    {
        Request { verbosity: Some(verbosity), ..self }
    }
}

/// Parameters for audio output.
#[derive(Debug, Clone, Copy, PartialEq, Eq, Structural)]
pub struct AudioConfig {
    /// The output audio format.
    pub format: AudioFormat,
    /// The voice the model uses to respond.
    pub voice: Voice,
}

impl AudioConfig {
    /// Audio output parameters.
    pub fn new(format: AudioFormat, voice: Voice) -> (r: Self)
        ensures
            r.format == format,
            r.voice == voice,
    {
        AudioConfig { format, voice }
    }
}

impl Default for AudioConfig {
    fn default() -> (r: Self)
        ensures
            r.format == AudioFormat::Wav,
            r.voice == Voice::Alloy,
    {
        AudioConfig { format: AudioFormat::Wav, voice: Voice::Alloy }
    }
}

/// Audio formats.
#[derive(Debug, Clone, Copy, PartialEq, Eq, Structural)]
pub enum AudioFormat {
    Wav,
    Mp3,
    Flac,
    Opus,
    Pcm16,
}

impl Default for AudioFormat {
    fn default() -> (r: Self)
        ensures
            r == AudioFormat::Wav,
    {
        AudioFormat::Wav
    }
}

/// Output voices.
#[derive(Debug, Clone, Copy, PartialEq, Eq, Structural)]
pub enum Voice {
    Alloy,
    Ash,
    Ballad,
    Coral,
    Echo,
    Fable,
    Nova,
    Onyx,
    Sage,
    Shimmer,
}

impl Default for Voice {
    fn default() -> (r: Self)
        ensures
            r == Voice::Alloy,
    {
        Voice::Alloy
    }
}

/// Output modalities.
#[derive(Debug, Clone, Copy, PartialEq, Eq, Structural)]
pub enum Modality {
    Text,
    Audio,
}

/// Reasoning effort.
#[derive(Debug, Clone, Copy, PartialEq, Eq, Structural)]
pub enum ReasoningEffort {
    Minimal,
    Low,
    Medium,
    High,
}

/// Processing type used for serving a request.
#[derive(Debug, Clone, Copy, PartialEq, Eq, Structural)]
pub enum ServiceTier {
    Auto,
    Default,
    Flex,
    Priority,
}

impl Default for ServiceTier {
    fn default() -> (r: Self)
        ensures
            r == ServiceTier::Auto,
    {
        ServiceTier::Auto
    }
}

/// Options for streaming responses.
#[derive(Debug, Clone, Copy, PartialEq, Eq, Structural)]
pub struct StreamOptions {
    /// Whether to stream a final chunk with the token usage.
    pub include_usage: Option<bool>,
}

impl StreamOptions {
    /// Streaming options.
    pub fn new(include_usage: bool) -> (r: Self)
        ensures
            r.include_usage == Some(include_usage),
    {
        StreamOptions { include_usage: Some(include_usage) }
    }
}

/// Verbosity of the model's response.
#[derive(Debug, Clone, Copy, PartialEq, Eq, Structural)]
pub enum Verbosity {
    Low,
    Medium,
    High,
}

} // verus!
