//! Ollama API errors.

use vstd::prelude::*;
use crate::json::text;

verus! {

/// Ollama API error: the message the server sent.
#[derive(Debug, Clone, PartialEq, Eq)]
pub struct Error {
    pub error: String,
}

impl Default for Error {
    fn default() -> (r: Self)
        ensures
            r.error@ == Seq::<char>::empty(),
    {
        Error { error: String::new() }
    }
}

impl Error {
    /// The text of the error: its message.
    pub fn to_text(&self) -> (r: String)
        ensures
            r@ == self.error@,
    {
        self.error.clone()
    }
}

impl vstd::std_specs::convert::FromSpecImpl<String> for Error {
    open spec fn obeys_from_spec() -> bool {
        true
    }

    open spec fn from_spec(error: String) -> Self {
        Error { error }
    }
}

impl From<String> for Error {
    fn from(error: String) -> Self {
        Error { error }
    }
}

impl vstd::std_specs::convert::FromSpecImpl<&str> for Error {
    open spec fn obeys_from_spec() -> bool {
        false
    }

    open spec fn from_spec(error: &str) -> Self {
        vstd::pervasive::arbitrary()
    }
}

impl From<&str> for Error {
    fn from(error: &str) -> (r: Self)
        ensures
            r.error@ == error@,
    {
        Error { error: text(error) }
    }
}

} // verus!
