//! Tool calls.

use vstd::prelude::*;
use crate::json::Json;

verus! {

/// A tool call of the model.
#[derive(Debug, Clone)]
pub struct ToolCall {
    /// The function that the model called.
    pub function: FunctionCall,
}

/// The function that the model called.
#[derive(Debug, Clone)]
pub struct FunctionCall {
    /// Function name.
    pub name: String,
    /// Function description.
    pub description: Option<String>,
    /// Function arguments.
    pub arguments: Option<Json>,
}

} // verus!
