//! Streaming event contents.

use vstd::prelude::*;

verus! {

/// Content delta of a streamed content block.
#[derive(Debug, Clone, PartialEq, Eq)]
pub enum Delta {
    TextDelta { text: String },
    InputJsonDelta { partial_json: String },
    ThinkingDelta { thinking: String },
    SignatureDelta { signature: String },
}

/// Message delta contents of a streamed message.
///
/// The stop reason is kept as the name the API sends (such as
/// `end_turn` or `tool_use`).
#[derive(Debug, Clone, PartialEq, Eq)]
pub struct MessageDelta {
    pub stop_reason: Option<String>,
    pub stop_sequence: Option<String>,
}

} // verus!
