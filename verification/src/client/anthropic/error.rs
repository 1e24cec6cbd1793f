//! Anthropic API errors.

use vstd::prelude::*;

verus! {

/// Anthropic API error response.
#[derive(Debug, Clone, PartialEq, Eq)]
pub struct Error {
    /// Message describing the error.
    pub message: String,
    /// The type of error (`type` on the wire).
    pub kind: String,
}

impl Default for Error {
    fn default() -> (r: Self)
        ensures
            r.message@ == Seq::<char>::empty(),
            r.kind@ == Seq::<char>::empty(),
    {
        Error { message: String::new(), kind: String::new() }
    }
}

} // verus!
