//! Anthropic API data types.

pub mod error;
pub mod message;
pub mod model;
pub mod stream;
pub mod tools;
