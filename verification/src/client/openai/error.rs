//! OpenAI API errors.

use vstd::prelude::*;

verus! {

/// OpenAI API error.
#[derive(Debug, Clone, PartialEq, Eq)]
pub struct Error {
    /// The type of error (`type` on the wire).
    pub kind: String,
    /// Error code.
    pub code: String,
    /// Message describing the error.
    pub message: String,
}

impl Default for Error {
    fn default() -> (r: Self)
        ensures
            r.kind@ == Seq::<char>::empty(),
            r.code@ == Seq::<char>::empty(),
            r.message@ == Seq::<char>::empty(),
    {
        Error { kind: String::new(), code: String::new(), message: String::new() }
    }
}

} // verus!
