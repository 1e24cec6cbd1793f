//! Gemini API errors.

use vstd::prelude::*;

verus! {

/// Gemini API error.
#[derive(Debug, Clone, PartialEq, Eq)]
pub struct Error {
    /// Error code (same as HTTP status).
    pub code: i64,
    /// Message describing the error.
    pub message: String,
    /// Error status.
    pub status: String,
}

impl Default for Error {
    fn default() -> (r: Self)
        ensures
            r.code == 0,
            r.message@ == Seq::<char>::empty(),
            r.status@ == Seq::<char>::empty(),
    {
        Error { code: 0, message: String::new(), status: String::new() }
    }
}

} // verus!
