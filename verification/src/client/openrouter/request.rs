//! Chat completion request.
//!
//! Sampling parameters that the API takes as floating-point numbers
//! are carried as their IEEE-754 binary64 bit patterns.

use vstd::prelude::*;
use crate::json::{text, Json};
use super::message::Message;
use super::tools::{ToolCallChoice, ToolChoiceConfig, ToolChoiceMode};

verus! {

/// Chat completion request.
#[derive(Debug)]
pub struct Request {
    /// The conversation so far.
    pub messages: Vec<Message>,
    /// The model to use.
    pub model: Option<String>,
    /// Models to try, in order, when the first is unavailable.
    pub models: Vec<String>,
    /// Frequency penalty (bit pattern of a binary64 number).
    pub frequency_penalty: Option<u64>,
    /// Number of most likely tokens to return at each position.
    pub top_logprobs: Option<u64>,
    /// Maximum number of tokens to generate.
    pub max_completion_tokens: Option<u64>,
    /// Presence penalty (bit pattern of a binary64 number).
    pub presence_penalty: Option<u64>,
    /// Reasoning configuration.
    pub reasoning: Option<ReasoningConfig>,
    /// Random seed for deterministic outputs.
    pub seed: Option<u64>,
    /// Whether to stream the response.
    pub stream: bool,
    /// Options for streaming responses.
    pub stream_options: Option<StreamOptions>,
    /// Sampling temperature (bit pattern of a binary64 number).
    pub temperature: Option<u64>,
    /// Which tool, if any, the model calls.
    pub tool_choice: Option<ToolChoiceConfig>,
    /// Tools the model may call.
    pub tools: Vec<Json>,
    /// Nucleus sampling parameter (bit pattern of a binary64 number).
    pub top_p: Option<u64>,
    /// Stable identifier of the end user.
    pub user: Option<String>,
}

impl Request {
    /// Whether `self` sets nothing but its model and model list.
    pub open spec fn is_bare(self) -> bool {
        &&& self.messages@.len() == 0
        &&& self.frequency_penalty is None
        &&& self.top_logprobs is None
        &&& self.max_completion_tokens is None
        &&& self.presence_penalty is None
        &&& self.reasoning is None
        &&& self.seed is None
        &&& !self.stream
        &&& self.stream_options is None
        &&& self.temperature is None
        &&& self.tool_choice is None
        &&& self.tools@.len() == 0
        &&& self.top_p is None
        &&& self.user is None
    }

    /// Whether `after` is `before` with the reasoning effort set to
    /// `effort` and the reasoning summary kept.
    pub open spec fn sets_reasoning_effort(before: Request, effort: ReasoningEffort, after: Request) -> bool {
        &&& after == (Request { reasoning: after.reasoning, ..before })
        &&& after.reasoning matches Some(c) && c.effort == Some(effort) && match before.reasoning {
            Some(old_c) => c.summary == old_c.summary,
            None => c.summary is None,
        }
    }

    /// Whether `after` is `before` with the reasoning summary set to
    /// `summary` and the reasoning effort kept.
    pub open spec fn sets_reasoning_summary(before: Request, summary: ReasoningSummary, after: Request) -> bool {
        &&& after == (Request { reasoning: after.reasoning, ..before })
        &&& after.reasoning matches Some(c) && c.summary == Some(summary) && match before.reasoning {
            Some(old_c) => c.effort == old_c.effort,
            None => c.effort is None,
        }
    }

    fn bare(model: Option<String>, models: Vec<String>) -> (r: Self)
        ensures
            r.is_bare(),
            r.model == model,
            r.models == models,
    {
        Request {
            messages: Vec::new(),
            model,
            models,
            frequency_penalty: None,
            top_logprobs: None,
            max_completion_tokens: None,
            presence_penalty: None,
            reasoning: None,
            seed: None,
            stream: false,
            stream_options: None,
            temperature: None,
            tool_choice: None,
            tools: Vec::new(),
            top_p: None,
            user: None,
        }
    }

    /// A request for `model`, with nothing else set.
    pub fn from_model(model: &str) -> (r: Self)
        ensures
            r.is_bare(),
            r.model matches Some(m) && m@ == model@,
            r.models@.len() == 0,
    {
        Request::bare(Some(text(model)), Vec::new())
    }

    /// A request for the first available of `models`, in order, with
    /// nothing else set.
    pub fn from_models(models: Vec<&str>) -> (r: Self)
        ensures
            r.is_bare(),
            r.model is None,
            r.models@.len() == models@.len(),
            forall|i: int| 0 <= i < models@.len() ==> (#[trigger] r.models@[i])@ == models@[i]@,
    {
        let mut names: Vec<String> = Vec::new();
        let mut i: usize = 0;
        while i < models.len()
            invariant
                i <= models@.len(),
                names@.len() == i,
                forall|k: int| 0 <= k < i ==> (#[trigger] names@[k])@ == models@[k]@,
            decreases models@.len() - i,
        {
            names.push(text(models[i]));
            i = i + 1;
        }
        Request::bare(None, names)
    }

    /// Pushes a model to the model list.
    pub fn push_model(self, model: &str) -> (r: Self)
        ensures
            r == (Request { models: r.models, ..self }),
            r.models@.len() == self.models@.len() + 1,
            r.models@.drop_last() == self.models@,
            r.models@.last()@ == model@,
    {
        let mut req = self;
        req.models.push(text(model));
        req
    }

    /// Pushes a message to the conversation.
    pub fn push_message(self, message: Message) -> (r: Self)
        ensures
            r == (Request { messages: r.messages, ..self }),
            r.messages@ == self.messages@.push(message),
    {
        let mut req = self;
        req.messages.push(message);
        req
    }

    /// Appends messages to the conversation, leaving `messages` empty.
    pub fn append_message(self, messages: &mut Vec<Message>) -> (r: Self)
        ensures
            r == (Request { messages: r.messages, ..self }),
            r.messages@ == self.messages@ + old(messages)@,
            final(messages)@.len() == 0,
    {
        let mut req = self;
        req.messages.append(messages);
        req
    }

    /// Appends models to the model list, leaving `models` empty.
    pub fn append_models(self, models: &mut Vec<String>) -> (r: Self)
        ensures
            r == (Request { models: r.models, ..self }),
            r.models@ == self.models@ + old(models)@,
            final(models)@.len() == 0,
    {
        let mut req = self;
        req.models.append(models);
        req
    }

    /// Sets the frequency penalty, given by its binary64 bit pattern.
    pub fn frequency_penalty(self, penalty_bits: u64) -> (r: Self)
        ensures
            r == (Request { frequency_penalty: Some(penalty_bits), ..self }),
    {
        Request { frequency_penalty: Some(penalty_bits), ..self }
    }

    /// Sets the number of most likely tokens to return.
    pub fn top_logprobs(self, top_logprobs: u64) -> (r: Self)
        ensures
            r == (Request { top_logprobs: Some(top_logprobs), ..self }),
    {
        Request { top_logprobs: Some(top_logprobs), ..self }
    }

    /// Sets the maximum number of completion tokens.
    pub fn max_completion_tokens(self, tokens: u64) -> (r: Self)
        ensures
            r == (Request { max_completion_tokens: Some(tokens), ..self }),
    {
        Request { max_completion_tokens: Some(tokens), ..self }
    }

    /// Sets the presence penalty, given by its binary64 bit pattern.
    pub fn presence_penalty(self, penalty_bits: u64) -> (r: Self)
        ensures
            r == (Request { presence_penalty: Some(penalty_bits), ..self }),
    {
        Request { presence_penalty: Some(penalty_bits), ..self }
    }

    /// Sets the reasoning configuration.
    pub fn reasoning(self, config: ReasoningConfig) -> (r: Self)
        ensures
            r == (Request { reasoning: Some(config), ..self }),
    {
        Request { reasoning: Some(config), ..self }
    }

    /// Sets the reasoning effort, keeping the reasoning summary.
    pub fn reasoning_effort(self, effort: ReasoningEffort) -> (r: Self)
        ensures
            Request::sets_reasoning_effort(self, effort, r),
    {
        let mut req = self;
        match req.reasoning {
            Some(config) => {
                req.reasoning = Some(ReasoningConfig { effort: Some(effort), ..config });
            },
            None => {
                req.reasoning = Some(ReasoningConfig { effort: Some(effort), summary: None });
            },
        }
        req
    }

    /// Sets the reasoning summary, keeping the reasoning effort.
    pub fn reasoning_summary(self, summary: ReasoningSummary) -> (r: Self)
        ensures
            Request::sets_reasoning_summary(self, summary, r),
    {
        let mut req = self;
        match req.reasoning {
            Some(config) => {
                req.reasoning = Some(ReasoningConfig { summary: Some(summary), ..config });
            },
            None => {
                req.reasoning = Some(ReasoningConfig { effort: None, summary: Some(summary) });
            },
        }
        req
    }

    /// Sets the random seed.
    pub fn seed(self, seed: u64) -> (r: Self)
        ensures
            r == (Request { seed: Some(seed), ..self }),
    {
        Request { seed: Some(seed), ..self }
    }

    /// Enables or disables streaming.
    pub fn stream(self, stream: bool) -> (r: Self)
        ensures
            r == (Request { stream, ..self }),
    {
        Request { stream, ..self }
    }

    /// Sets the streaming options: whether a final chunk reports the
    /// token usage.
    pub fn stream_options(self, include_usage: bool) -> (r: Self)
        ensures
            r == (Request { stream_options: Some(StreamOptions { include_usage: Some(include_usage) }), ..self }),
    {
        Request { stream_options: Some(StreamOptions { include_usage: Some(include_usage) }), ..self }
    }

    /// Sets the temperature, given by its binary64 bit pattern.
    pub fn temperature(self, temp_bits: u64) -> (r: Self)
        ensures
            r == (Request { temperature: Some(temp_bits), ..self }),
    {
        Request { temperature: Some(temp_bits), ..self }
    }

    /// Sets the tool choice.
    pub fn tool_choice(self, config: ToolChoiceConfig) -> (r: Self)
        ensures
            r == (Request { tool_choice: Some(config), ..self }),
    {
        Request { tool_choice: Some(config), ..self }
    }

    /// Sets the tool choice to a mode.
    pub fn tool_choice_mode(self, mode: ToolChoiceMode) -> (r: Self)
        ensures
            r == (Request { tool_choice: Some(ToolChoiceConfig::Mode(mode)), ..self }),
    {
        Request { tool_choice: Some(ToolChoiceConfig::Mode(mode)), ..self }
    }

    /// Sets the tool choice to a specific tool.
    pub fn tool_choice_object(self, object: ToolCallChoice) -> (r: Self)
        ensures
            r == (Request { tool_choice: Some(ToolChoiceConfig::Object(object)), ..self }),
    {
        Request { tool_choice: Some(ToolChoiceConfig::Object(object)), ..self }
    }

    /// Pushes a tool.
    pub fn push_tool(self, tool: Json) -> (r: Self)
        ensures
            r == (Request { tools: r.tools, ..self }),
            r.tools@ == self.tools@.push(tool),
    {
        let mut req = self;
        req.tools.push(tool);
        req
    }

    /// Appends tools, leaving `tools` empty.
    pub fn append_tools(self, tools: &mut Vec<Json>) -> (r: Self)
        ensures
            r == (Request { tools: r.tools, ..self }),
            r.tools@ == self.tools@ + old(tools)@,
            final(tools)@.len() == 0,
    {
        let mut req = self;
        req.tools.append(tools);
        req
    }

    /// Sets `top_p`, given by its binary64 bit pattern.
    pub fn top_p(self, top_p_bits: u64) -> (r: Self)
        ensures
            r == (Request { top_p: Some(top_p_bits), ..self }),
    {
        Request { top_p: Some(top_p_bits), ..self }
    }

    /// Sets the end user identifier.
    pub fn user(self, user: &str) -> (r: Self)
        ensures
            r == (Request { user: r.user, ..self }),
            r.user matches Some(u) && u@ == user@,
    {
        Request { user: Some(text(user)), ..self }
    }
}

/// Setting the reasoning effort and the reasoning summary of a request
/// gives the same request in either order: each keeps the other.
pub proof fn lemma_reasoning_setters_commute(
    req: Request,
    effort: ReasoningEffort,
    summary: ReasoningSummary,
    x: Request,
    y: Request,
    u: Request,
    v: Request,
)
    requires
        Request::sets_reasoning_effort(req, effort, x),
        Request::sets_reasoning_summary(x, summary, y),
        Request::sets_reasoning_summary(req, summary, u),
        Request::sets_reasoning_effort(u, effort, v),
    ensures
        y == v,
        y.reasoning == Some(ReasoningConfig { effort: Some(effort), summary: Some(summary) }),
{
}

/// Reasoning configuration.
#[derive(Debug, Clone, Copy, PartialEq, Eq, Structural)]
pub struct ReasoningConfig {
    /// Reasoning effort.
    pub effort: Option<ReasoningEffort>,
    /// Reasoning summary detail.
    pub summary: Option<ReasoningSummary>,
}

impl Default for ReasoningConfig {
    fn default() -> (r: Self)
        ensures
            r.effort is None,
            r.summary is None,
    {
        ReasoningConfig { effort: None, summary: None }
    }
}
impl vstd::std_specs::convert::FromSpecImpl<ReasoningEffort> for ReasoningConfig {
    open spec fn obeys_from_spec() -> bool {
        true
    }

    open spec fn from_spec(value: ReasoningEffort) -> Self {
        ReasoningConfig { effort: Some(value), summary: None }
    }
}

impl From<ReasoningEffort> for ReasoningConfig {
    fn from(value: ReasoningEffort) -> Self {
        ReasoningConfig { effort: Some(value), summary: None }
    }
}
impl vstd::std_specs::convert::FromSpecImpl<ReasoningSummary> for ReasoningConfig {
    open spec fn obeys_from_spec() -> bool {
        true
    }

    open spec fn from_spec(value: ReasoningSummary) -> Self {
        ReasoningConfig { effort: None, summary: Some(value) }
    }
}

impl From<ReasoningSummary> for ReasoningConfig {
    fn from(value: ReasoningSummary) -> Self {
        ReasoningConfig { effort: None, summary: Some(value) }
    }
}

/// Reasoning effort.
#[derive(Debug, Clone, Copy, PartialEq, Eq, Structural)]
pub enum ReasoningEffort {
    Minimal,
    Low,
    Medium,
    High,
}

/// Reasoning summary detail.
#[derive(Debug, Clone, Copy, PartialEq, Eq, Structural)]
pub enum ReasoningSummary {
    Auto,
    Concise,
    Detailed,
}

/// Options for streaming responses.
#[derive(Debug, Clone, Copy, PartialEq, Eq, Structural)]
pub struct StreamOptions {
    /// Whether to stream a final chunk with the token usage.
    pub include_usage: Option<bool>,
}

} // verus!
