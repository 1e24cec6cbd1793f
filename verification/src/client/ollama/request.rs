//! Chat request.
//!
//! Sampling parameters that the API takes as floating-point numbers
//! are carried as their IEEE-754 binary64 bit patterns.

use vstd::prelude::*;
use crate::json::{text, Json};
use super::message::Message;

verus! {

/// Chat request.
#[derive(Debug)]
pub struct Request {
    /// Model name.
    pub model: String,
    /// The conversation so far.
    pub messages: Vec<Message>,
    /// Tools the model may call.
    pub tools: Vec<Json>,
    /// Model options.
    pub options: Option<Options>,
    /// Whether to stream the response.
    pub stream: Option<bool>,
    /// Whether the model should think before responding.
    pub think: Option<bool>,
    /// How long the model stays loaded after the request, such as
    /// `5m`.
    pub keep_alive: Option<String>,
}

/// The options of a request, or the default options where it has
/// none; the request is left without any.
fn take_options(options: &mut Option<Options>) -> (r: Options)
    ensures
        *final(options) is None,
        *old(options) matches Some(o) ==> r == o,
        *old(options) is None ==> r.is_default(),
{
    match options.take() {
        Some(o) => o,
        None => Options::default(),
    }
}

impl Request {
    /// The stop sequences of the options, if any.
    pub open spec fn stop_spec(self) -> Seq<String> {
        match self.options {
            Some(o) => o.stop@,
            None => Seq::empty(),
        }
    }

    /// A request for `model`, with nothing else set.
    pub fn from_model(model: &str) -> (r: Self)
        ensures
            r.model@ == model@,
            r.messages@.len() == 0,
            r.tools@.len() == 0,
            r.options is None,
            r.stream is None,
            r.think is None,
            r.keep_alive is None,
    {
        Request {
            model: text(model),
            messages: Vec::new(),
            tools: Vec::new(),
            options: None,
            stream: None,
            think: None,
            keep_alive: None,
        }
    }

    /// Pushes a message to the conversation.
    pub fn push_message(self, message: Message) -> (r: Self)
        ensures
            r == (Request { messages: r.messages, ..self }),
            r.messages@ == self.messages@.push(message),
    {
        let mut req = self;
        req.messages.push(message);
        req
    }

    /// Appends messages to the conversation, leaving `other` empty.
    pub fn append_messages(self, other: &mut Vec<Message>) -> (r: Self)
        ensures
            r == (Request { messages: r.messages, ..self }),
            r.messages@ == self.messages@ + old(other)@,
            final(other)@.len() == 0,
    {
        let mut req = self;
        req.messages.append(other);
        req
    }

    /// Pushes a tool.
    pub fn push_tool(self, tool: Json) -> (r: Self)
        ensures
            r == (Request { tools: r.tools, ..self }),
            r.tools@ == self.tools@.push(tool),
    {
        let mut req = self;
        req.tools.push(tool);
        req
    }

    /// Appends tools, leaving `other` empty.
    pub fn append_tools(self, other: &mut Vec<Json>) -> (r: Self)
        ensures
            r == (Request { tools: r.tools, ..self }),
            r.tools@ == self.tools@ + old(other)@,
            final(other)@.len() == 0,
    {
        let mut req = self;
        req.tools.append(other);
        req
    }

    /// Enables or disables streaming.
    pub fn stream(self, stream: bool) -> (r: Self)
        ensures
            r == (Request { stream: Some(stream), ..self }),
    {
        Request { stream: Some(stream), ..self }
    }

    /// Enables or disables thinking.
    pub fn think(self, think: bool) -> (r: Self)
        ensures
            r == (Request { think: Some(think), ..self }),
    {
        Request { think: Some(think), ..self }
    }

    /// Sets how long the model stays loaded.
    pub fn keep_alive(self, duration: String) -> (r: Self)
        ensures
            r == (Request { keep_alive: Some(duration), ..self }),
    {
        Request { keep_alive: Some(duration), ..self }
    }

    /// Sets the random seed in the options, which are created where there are none.
    pub fn seed(self, seed: i64) -> (r: Self)
        ensures
            r == (Request { options: r.options, ..self }),
            r.options matches Some(o) && o.seed == Some(seed) && match self.options {
                Some(prev) => o == (Options { seed: Some(seed), ..prev }),
                None => (Options { seed: None, ..o }).is_default(),
            },
    {
        let mut req = self;
        let opts = take_options(&mut req.options);
        req.options = Some(opts.seed(seed));
        req
    }

    /// Sets the temperature, given by its binary64 bit pattern, in the options, which are created where there are none.
    pub fn temperature(self, temp_bits: u64) -> (r: Self)
        ensures
            r == (Request { options: r.options, ..self }),
            r.options matches Some(o) && o.temperature == Some(temp_bits) && match self.options {
                Some(prev) => o == (Options { temperature: Some(temp_bits), ..prev }),
                None => (Options { temperature: None, ..o }).is_default(),
            },
    {
        let mut req = self;
        let opts = take_options(&mut req.options);
        req.options = Some(opts.temperature(temp_bits));
        req
    }

    /// Sets `top_k` in the options, which are created where there are none.
    pub fn top_k(self, top_k: u64) -> (r: Self)
        ensures
            r == (Request { options: r.options, ..self }),
            r.options matches Some(o) && o.top_k == Some(top_k) && match self.options {
                Some(prev) => o == (Options { top_k: Some(top_k), ..prev }),
                None => (Options { top_k: None, ..o }).is_default(),
            },
    {
        let mut req = self;
        let opts = take_options(&mut req.options);
        req.options = Some(opts.top_k(top_k));
        req
    }

    /// Sets `top_p`, given by its binary64 bit pattern, in the options, which are created where there are none.
    pub fn top_p(self, top_p_bits: u64) -> (r: Self)
        ensures
            r == (Request { options: r.options, ..self }),
            r.options matches Some(o) && o.top_p == Some(top_p_bits) && match self.options {
                Some(prev) => o == (Options { top_p: Some(top_p_bits), ..prev }),
                None => (Options { top_p: None, ..o }).is_default(),
            },
    {
        let mut req = self;
        let opts = take_options(&mut req.options);
        req.options = Some(opts.top_p(top_p_bits));
        req
    }

    /// Sets `min_p`, given by its binary64 bit pattern, in the options, which are created where there are none.
    pub fn min_p(self, min_p_bits: u64) -> (r: Self)
        ensures
            r == (Request { options: r.options, ..self }),
            r.options matches Some(o) && o.min_p == Some(min_p_bits) && match self.options {
                Some(prev) => o == (Options { min_p: Some(min_p_bits), ..prev }),
                None => (Options { min_p: None, ..o }).is_default(),
            },
    {
        let mut req = self;
        let opts = take_options(&mut req.options);
        req.options = Some(opts.min_p(min_p_bits));
        req
    }

    /// Sets the size of the context window in the options, which are created where there are none.
    pub fn num_ctx(self, num_ctx: u64) -> (r: Self)
        ensures
            r == (Request { options: r.options, ..self }),
            r.options matches Some(o) && o.num_ctx == Some(num_ctx) && match self.options {
                Some(prev) => o == (Options { num_ctx: Some(num_ctx), ..prev }),
                None => (Options { num_ctx: None, ..o }).is_default(),
            },
    {
        let mut req = self;
        let opts = take_options(&mut req.options);
        req.options = Some(opts.num_ctx(num_ctx));
        req
    }

    /// Sets the maximum number of tokens to predict in the options, which are created where there are none.
    pub fn num_predict(self, num_predict: u64) -> (r: Self)
        ensures
            r == (Request { options: r.options, ..self }),
            r.options matches Some(o) && o.num_predict == Some(num_predict) && match self.options {
                Some(prev) => o == (Options { num_predict: Some(num_predict), ..prev }),
                None => (Options { num_predict: None, ..o }).is_default(),
            },
    {
        let mut req = self;
        let opts = take_options(&mut req.options);
        req.options = Some(opts.num_predict(num_predict));
        req
    }

    /// Appends stop sequences to the options, which are created where
    /// there are none; `stop` is left empty.
    pub fn append_stop_sequences(self, stop: &mut Vec<String>) -> (r: Self)
        ensures
            r == (Request { options: r.options, ..self }),
            final(stop)@.len() == 0,
            r.options matches Some(o) && o.stop@ == self.stop_spec() + old(stop)@ && match self.options {
                Some(prev) => o == (Options { stop: o.stop, ..prev }),
                None => o.options_unset(),
            },
    {
        let mut req = self;
        let opts = take_options(&mut req.options);
        req.options = Some(opts.append_stop_sequences(stop));
        req
    }

    /// Pushes a stop sequence to the options, which are created where
    /// there are none.
    pub fn push_stop_sequence(self, stop: String) -> (r: Self)
        ensures
            r == (Request { options: r.options, ..self }),
            r.options matches Some(o) && o.stop@ == self.stop_spec().push(stop) && match self.options {
                Some(prev) => o == (Options { stop: o.stop, ..prev }),
                None => o.options_unset(),
            },
    {
        let mut req = self;
        let opts = take_options(&mut req.options);
        req.options = Some(opts.push_stop_sequence(stop));
        req
    }
}

/// Model options.
#[derive(Debug, Clone)]
pub struct Options {
    /// Random seed.
    pub seed: Option<i64>,
    /// Temperature (bit pattern of a binary64 number).
    pub temperature: Option<u64>,
    /// Number of most likely tokens to consider.
    pub top_k: Option<u64>,
    /// Nucleus sampling probability (bit pattern of a binary64
    /// number).
    pub top_p: Option<u64>,
    /// Minimum token probability relative to the most likely one (bit
    /// pattern of a binary64 number).
    pub min_p: Option<u64>,
    /// Stop sequences.
    pub stop: Vec<String>,
    /// Size of the context window.
    pub num_ctx: Option<u64>,
    /// Maximum number of tokens to predict.
    pub num_predict: Option<u64>,
}

impl Options {
    /// Whether no option is set.
    pub open spec fn options_unset(self) -> bool {
        &&& self.seed is None
        &&& self.temperature is None
        &&& self.top_k is None
        &&& self.top_p is None
        &&& self.min_p is None
        &&& self.num_ctx is None
        &&& self.num_predict is None
    }

    /// Whether these are the default options: none set and no stop
    /// sequence.
    pub open spec fn is_default(self) -> bool {
        self.options_unset() && self.stop@.len() == 0
    }

    /// Sets the random seed.
    pub fn seed(self, seed: i64) -> (r: Self)
        ensures
            r == (Options { seed: Some(seed), ..self }),
    {
        Options { seed: Some(seed), ..self }
    }

    /// Sets the temperature, given by its binary64 bit pattern.
    pub fn temperature(self, temp_bits: u64) -> (r: Self)
        ensures
            r == (Options { temperature: Some(temp_bits), ..self }),
    {
        Options { temperature: Some(temp_bits), ..self }
    }

    /// Sets `top_k`.
    pub fn top_k(self, top_k: u64) -> (r: Self)
        ensures
            r == (Options { top_k: Some(top_k), ..self }),
    {
        Options { top_k: Some(top_k), ..self }
    }

    /// Sets `top_p`, given by its binary64 bit pattern.
    pub fn top_p(self, top_p_bits: u64) -> (r: Self)
        ensures
            r == (Options { top_p: Some(top_p_bits), ..self }),
    {
        Options { top_p: Some(top_p_bits), ..self }
    }

    /// Sets `min_p`, given by its binary64 bit pattern.
    pub fn min_p(self, min_p_bits: u64) -> (r: Self)
        ensures
            r == (Options { min_p: Some(min_p_bits), ..self }),
    {
        Options { min_p: Some(min_p_bits), ..self }
    }

    /// Appends stop sequences, leaving `stop` empty.
    pub fn append_stop_sequences(self, stop: &mut Vec<String>) -> (r: Self)
        ensures
            r == (Options { stop: r.stop, ..self }),
            r.stop@ == self.stop@ + old(stop)@,
            final(stop)@.len() == 0,
    {
        let mut options = self;
        options.stop.append(stop);
        options
    }

    /// Pushes a stop sequence.
    pub fn push_stop_sequence(self, stop: String) -> (r: Self)
        ensures
            r == (Options { stop: r.stop, ..self }),
            r.stop@ == self.stop@.push(stop),
    {
        let mut options = self;
        options.stop.push(stop);
        options
    }

    /// Sets the size of the context window.
    pub fn num_ctx(self, num_ctx: u64) -> (r: Self)
        ensures
            r == (Options { num_ctx: Some(num_ctx), ..self }),
    {
        Options { num_ctx: Some(num_ctx), ..self }
    }

    /// Sets the maximum number of tokens to predict.
    pub fn num_predict(self, num_predict: u64) -> (r: Self)
        ensures
            r == (Options { num_predict: Some(num_predict), ..self }),
    {
        Options { num_predict: Some(num_predict), ..self }
    }
}

impl Default for Options {
    fn default() -> (r: Self)
        ensures
            r.is_default(),
    {
        Options {
            seed: None,
            temperature: None,
            top_k: None,
            top_p: None,
            min_p: None,
            stop: Vec::new(),
            num_ctx: None,
            num_predict: None,
        }
    }
}

} // verus!
