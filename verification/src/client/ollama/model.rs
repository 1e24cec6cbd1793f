//! Model information.

use vstd::prelude::*;

verus! {

/// A locally available model.
#[derive(Debug, Clone, PartialEq, Eq)]
pub struct Model {
    /// Model name.
    pub name: String,
    /// Time of the last modification.
    pub modified_at: String,
    /// Size in bytes.
    pub size: u64,
    /// Model digest.
    pub digest: String,
    /// Model details.
    pub details: ModelDetails,
}

/// Model details.
#[derive(Debug, Clone, PartialEq, Eq)]
pub struct ModelDetails {
    /// Model format.
    pub format: String,
    /// Model family.
    pub family: String,
    /// Model families.
    pub families: Vec<String>,
    /// Number of parameters, such as `8.0B`.
    pub parameter_size: String,
    /// Quantization level, such as `Q4_0`.
    pub quantization_level: String,
}

} // verus!
