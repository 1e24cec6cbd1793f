//! OpenRouter API errors.

use vstd::prelude::*;
use crate::json::Json;

verus! {

/// OpenRouter API error.
#[derive(Debug, Clone)]
pub struct Error {
    /// Error code.
    pub code: i64,
    /// Message describing the error.
    pub message: String,
    /// Additional error information.
    pub metadata: Option<Json>,
}

impl Default for Error {
    fn default() -> (r: Self)
        ensures
            r.code == 0,
            r.message@ == Seq::<char>::empty(),
            r.metadata is None,
    {
        Error { code: 0, message: String::new(), metadata: None }
    }
}

} // verus!
