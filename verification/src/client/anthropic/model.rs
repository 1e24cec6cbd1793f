//! Model information.

use vstd::prelude::*;

verus! {

/// Model information.
#[derive(Debug, Clone, PartialEq, Eq)]
pub struct Model {
    /// RFC 3339 datetime string of the time at which the model was
    /// released (an epoch value if the release date is unknown).
    pub created_at: String,
    /// A human-readable name for the model.
    pub display_name: String,
    /// Unique model identifier.
    pub id: String,
}

} // verus!
