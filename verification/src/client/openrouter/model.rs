//! Model information.
//!
//! The prices of a model are kept out of this library: they are
//! floating-point numbers.

use vstd::prelude::*;

verus! {

/// Model architecture.
#[derive(Debug, Clone, PartialEq, Eq)]
pub struct ModelArchitecture {
    /// Input and output modalities, such as `text->text`.
    pub modality: Option<String>,
    /// Supported input modalities.
    pub input_modalities: Vec<Modality>,
    /// Supported output modalities.
    pub output_modalities: Vec<Modality>,
    /// Tokenizer type.
    pub tokenizer: Option<String>,
    /// Instruction format type.
    pub instruct_type: Option<String>,
}

/// Modalities.
#[derive(Debug, Clone, Copy, PartialEq, Eq, Structural)]
pub enum Modality {
    Text,
    Image,
    File,
    Audio,
    Video,
    Embeddings,
}

/// Configuration of the top provider of a model.
#[derive(Debug, Clone, Copy, PartialEq, Eq, Structural)]
pub struct TopProvider {
    /// Whether content moderation is applied.
    pub is_moderated: bool,
    /// Provider-specific context limit.
    pub context_length: Option<u64>,
    /// Maximum tokens in a response.
    pub max_completion_tokens: Option<u64>,
}

/// Rate limits of a request.
#[derive(Debug, Clone, Copy, PartialEq, Eq, Structural)]
pub struct PerRequestLimits {
    /// Maximum prompt tokens per request.
    pub prompt_tokens: u64,
    /// Maximum completion tokens per request.
    pub completion_tokens: u64,
}

} // verus!
