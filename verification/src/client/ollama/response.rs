//! Chat responses.

use vstd::prelude::*;
use super::message::Message;

verus! {

/// A chat response, or one chunk of a streamed one.
#[derive(Debug, Clone)]
pub struct Response {
    /// Model name.
    pub model: String,
    /// Time of creation.
    pub created_at: String,
    /// The generated message.
    pub message: Message,
    /// Whether the response is complete.
    pub done: bool,
    /// Why the generation stopped.
    pub done_reason: Option<String>,
    /// Time spent generating the response (nanoseconds).
    pub total_duration: Option<u64>,
    /// Time spent loading the model (nanoseconds).
    pub load_duration: Option<u64>,
    /// Number of tokens in the prompt.
    pub prompt_eval_count: Option<u64>,
    /// Time spent evaluating the prompt (nanoseconds).
    pub prompt_eval_duration: Option<u64>,
    /// Number of tokens in the response.
    pub eval_count: Option<u64>,
    /// Time spent generating the response (nanoseconds).
    pub eval_duration: Option<u64>,
}

} // verus!
