//! OpenRouter chat completions API data types.

pub mod error;
pub mod message;
pub mod model;
pub mod request;
pub mod tools;
