//! Safety and moderation data types.

use vstd::prelude::*;

verus! {

/// Safety setting: the probability at which content of a harm
/// category is blocked.
#[derive(Debug, Clone, Copy, PartialEq, Eq, Structural)]
pub struct SafetySettings {
    /// The category for this setting.
    pub category: HarmCategory,
    /// Controls the probability threshold at which harm is blocked.
    pub threshold: HarmBlockThreshold,
}

impl SafetySettings {
    /// A safety setting for `category` at `threshold`.
    pub fn new(category: HarmCategory, threshold: HarmBlockThreshold) -> (r: Self)
        ensures
            r.category == category,
            r.threshold == threshold,
    {
        SafetySettings { category, threshold }
    }
}

/// The category of a rating.
#[derive(Debug, Clone, Copy, PartialEq, Eq, Structural)]
pub enum HarmCategory {
    /// Negative or harmful comments targeting identity and/or
    /// protected attributes (PaLM models only).
    Derogatory,
    /// Content that is rude, disrespectful, or profane (PaLM models
    /// only).
    Toxicity,
    /// Violence against an individual or group, or gore (PaLM models
    /// only).
    Violence,
    /// References to sexual acts or other lewd content (PaLM models
    /// only).
    Sexual,
    /// Unchecked medical advice (PaLM models only).
    Medical,
    /// Content that promotes, facilitates, or encourages harmful acts
    /// (PaLM models only).
    Dangerous,
    /// Harassment content (Gemini models only).
    Harassment,
    /// Hate speech and content (Gemini models only).
    HateSpeech,
    /// Sexually explicit content (Gemini models only).
    SexuallyExplicit,
    /// Dangerous content (Gemini models only).
    DangerousContent,
    /// Content that may be used to harm civic integrity (Gemini models
    /// only).
    CivicIntegrity,
}

/// Block at and beyond a specified harm probability.
#[derive(Debug, Clone, Copy, PartialEq, Eq, Structural)]
pub enum HarmBlockThreshold {
    /// Content with NEGLIGIBLE will be allowed.
    BlockLowAndAbove,
    /// Content with NEGLIGIBLE and LOW will be allowed.
    BlockMediumAndAbove,
    /// Content with NEGLIGIBLE, LOW, and MEDIUM will be allowed.
    BlockOnlyHigh,
    /// All content will be allowed.
    BlockNone,
    /// Turn off the safety filter.
    Off,
}

/// Safety rating for a piece of content: the harm category and the
/// probability of harm in that category.
#[derive(Debug, Clone, Copy, PartialEq, Eq, Structural)]
pub struct SafetyRating {
    /// The category for this rating.
    pub category: HarmCategory,
    /// The probability of harm for this content.
    pub probability: HarmProbability,
    /// Whether this content was blocked because of this rating.
    pub blocked: Option<bool>,
}

/// The probability that a piece of content is harmful.
#[derive(Debug, Clone, Copy, PartialEq, Eq, Structural)]
pub enum HarmProbability {
    /// Content has a negligible chance of being unsafe.
    Negligible,
    /// Content has a low chance of being unsafe.
    Low,
    /// Content has a medium chance of being unsafe.
    Medium,
    /// Content has a high chance of being unsafe.
    High,
}

} // verus!
