//! Tool calls and tool choice.

use vstd::prelude::*;
use crate::json::text;

verus! {

/// A tool call generated by the model.
#[derive(Debug, Clone, PartialEq, Eq)]
pub struct ToolCall {
    /// The ID of the tool call.
    pub id: String,
    /// The function that the model called.
    pub function: FunctionCall,
}

/// The function that the model called.
#[derive(Debug, Clone, PartialEq, Eq)]
pub enum FunctionCall {
    Function {
        /// The name of the function to call.
        name: String,
        /// The arguments, as JSON text generated by the model.
        arguments: String,
    },
}

/// Which tool, if any, the model calls: a mode or a specific tool.
#[derive(Debug, Clone, PartialEq, Eq)]
pub enum ToolChoiceConfig {
    Mode(ToolChoiceMode),
    Object(ToolCallChoice),
}

/// Tool choice modes.
#[derive(Debug, Clone, Copy, PartialEq, Eq, Structural)]
pub enum ToolChoiceMode {
    /// The model will not call any tool (`none` on the wire).
    Prohibited,
    /// The model can pick between generating a message or calling
    /// tools.
    Auto,
    /// The model must call one or more tools.
    Required,
}

/// A specific tool for the model to call.
#[derive(Debug, Clone, PartialEq, Eq)]
pub enum ToolCallChoice {
    Function {
        /// The name of the function to call.
        name: String,
    },
}

impl ToolCallChoice {
    /// A choice of the function `name`.
    pub fn function(name: &str) -> (r: Self)
        ensures
            r matches ToolCallChoice::Function { name: n } && n@ == name@,
    {
        ToolCallChoice::Function { name: text(name) }
    }
}

impl vstd::std_specs::convert::FromSpecImpl<ToolChoiceMode> for ToolChoiceConfig {
    open spec fn obeys_from_spec() -> bool {
        true
    }

    open spec fn from_spec(value: ToolChoiceMode) -> Self {
        ToolChoiceConfig::Mode(value)
    }
}

impl From<ToolChoiceMode> for ToolChoiceConfig {
    fn from(value: ToolChoiceMode) -> Self {
        ToolChoiceConfig::Mode(value)
    }
}

impl vstd::std_specs::convert::FromSpecImpl<ToolCallChoice> for ToolChoiceConfig {
    open spec fn obeys_from_spec() -> bool {
        true
    }

    open spec fn from_spec(value: ToolCallChoice) -> Self {
        ToolChoiceConfig::Object(value)
    }
}

impl From<ToolCallChoice> for ToolChoiceConfig {
    fn from(value: ToolCallChoice) -> Self {
        ToolChoiceConfig::Object(value)
    }
}

} // verus!
