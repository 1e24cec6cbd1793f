//! Verified building blocks of an LLM client library: JSON schema
//! generation for tool calling, provider message and request types,
//! connection settings, and the scanners that split streamed responses
//! into events.

pub mod client;
pub mod json;
pub mod json_eq;
pub mod mcp;
pub mod tools;
