//! API error responses of the providers.

use vstd::prelude::*;
use super::anthropic::error::Error as AnthropicError;
use super::gemini::error::Error as GeminiError;
use super::ollama::error::Error as OllamaError;
use super::openai::error::Error as OpenAIError;
use super::openrouter::error::Error as OpenRouterError;

verus! {

/// The API error response of a provider.
///
/// Clients may also fail without an error response (a connection that
/// times out, a body that is not JSON); those failures are not API
/// error responses.
#[derive(Debug)]
pub enum Error {
    /// An OpenAI error response object.
    OpenAI(OpenAIError),
    /// An Ollama error response object.
    Ollama(OllamaError),
    /// An OpenRouter error response object.
    OpenRouter(OpenRouterError),
    /// A Gemini error response object.
    Gemini(GeminiError),
    /// An Anthropic error response object.
    Anthropic(AnthropicError),
}

impl vstd::std_specs::convert::FromSpecImpl<OpenAIError> for Error {
    open spec fn obeys_from_spec() -> bool {
        true
    }

    open spec fn from_spec(value: OpenAIError) -> Self {
        Error::OpenAI(value)
    }
}

impl From<OpenAIError> for Error {
    fn from(value: OpenAIError) -> Self {
        Error::OpenAI(value)
    }
}

impl vstd::std_specs::convert::FromSpecImpl<OllamaError> for Error {
    open spec fn obeys_from_spec() -> bool {
        true
    }

    open spec fn from_spec(value: OllamaError) -> Self {
        Error::Ollama(value)
    }
}

impl From<OllamaError> for Error {
    fn from(value: OllamaError) -> Self {
        Error::Ollama(value)
    }
}

impl vstd::std_specs::convert::FromSpecImpl<OpenRouterError> for Error {
    open spec fn obeys_from_spec() -> bool {
        true
    }

    open spec fn from_spec(value: OpenRouterError) -> Self {
        Error::OpenRouter(value)
    }
}

impl From<OpenRouterError> for Error {
    fn from(value: OpenRouterError) -> Self {
        Error::OpenRouter(value)
    }
}

impl vstd::std_specs::convert::FromSpecImpl<GeminiError> for Error {
    open spec fn obeys_from_spec() -> bool {
        true
    }

    open spec fn from_spec(value: GeminiError) -> Self {
        Error::Gemini(value)
    }
}

impl From<GeminiError> for Error {
    fn from(value: GeminiError) -> Self {
        Error::Gemini(value)
    }
}

impl vstd::std_specs::convert::FromSpecImpl<AnthropicError> for Error {
    open spec fn obeys_from_spec() -> bool {
        true
    }

    open spec fn from_spec(value: AnthropicError) -> Self {
        Error::Anthropic(value)
    }
}

impl From<AnthropicError> for Error {
    fn from(value: AnthropicError) -> Self {
        Error::Anthropic(value)
    }
}

} // verus!
