//! Generate tool schemas from custom types.

pub mod schema;
pub mod tool;
