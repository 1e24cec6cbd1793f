//! Model information.

use vstd::prelude::*;

verus! {

/// A model offered by the API.
#[derive(Debug, Clone, PartialEq, Eq)]
pub struct Model {
    /// Unix timestamp (in seconds) when the model was created.
    pub created: i64,
    /// The model identifier.
    pub id: String,
    /// The object type, which is always `model`.
    pub object: String,
    /// The organization that owns the model.
    pub owned_by: String,
}

} // verus!
