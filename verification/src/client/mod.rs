//! LLM clients: provider message and request types, connection
//! settings, and the scanners that split streamed responses into
//! events.

pub mod anthropic;
pub mod error;
pub mod gemini;
pub mod model;
pub mod ollama;
pub mod openai;
pub mod openrouter;
pub mod settings;
pub mod sse;
