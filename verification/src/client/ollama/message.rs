//! Chat messages.

use vstd::prelude::*;
use super::tools::ToolCall;

verus! {

/// A chat message, by the role of its sender.
#[derive(Debug, Clone)]
pub enum Message {
    System { content: String },
    User {
        content: String,
        /// Base64 encoded images.
        images: Vec<String>,
    },
    Assistant {
        content: String,
        /// Tools that the model wants to call.
        tool_calls: Option<Vec<ToolCall>>,
        /// The model's thinking (received, never sent).
        thinking: Option<String>,
        /// Images in the response (received, never sent).
        images: Option<Vec<String>>,
    },
    Tool { content: String },
}

} // verus!
