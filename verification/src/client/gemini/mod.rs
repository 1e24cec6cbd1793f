//! Google Gemini API data types.

pub mod error;
pub mod request;
pub mod safety;
