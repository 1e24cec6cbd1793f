//! Anthropic tool call definitions, configurations, and results.

use vstd::prelude::*;
use crate::json::{text, Json};
use super::message::{CacheControl, Document};

verus! {

/// How the model should use the tools provided in a request.
#[derive(Debug, Clone)]
pub enum ToolChoice {
    /// The model is prohibited from using any tools (`none` on the
    /// wire).
    Prohibited,
    /// The model will automatically decide whether to use tools.
    Auto {
        /// Whether to disable parallel tool use.
        disable_parallel_tool_use: Option<bool>,
    },
    /// The model will use any available tools.
    Any {
        /// Whether to disable parallel tool use.
        disable_parallel_tool_use: Option<bool>,
    },
    /// The model will use the specified tool.
    Tool {
        /// The name of the tool to use.
        name: String,
        /// Whether to disable parallel tool use.
        disable_parallel_tool_use: Option<bool>,
    },
}

impl ToolChoice {
    /// A [`ToolChoice`] that prohibits all tool use.
    pub fn none() -> (r: Self)
        ensures
            r == ToolChoice::Prohibited,
    {
        ToolChoice::Prohibited
    }

    /// A [`ToolChoice`] that lets the model decide whether to use
    /// tools.
    pub fn auto(disable_parallel_tool_use: Option<bool>) -> (r: Self)
        ensures
            r == (ToolChoice::Auto { disable_parallel_tool_use }),
    {
        ToolChoice::Auto { disable_parallel_tool_use }
    }

    /// A [`ToolChoice`] that makes the model use any available tools.
    pub fn any(disable_parallel_tool_use: Option<bool>) -> (r: Self)
        ensures
            r == (ToolChoice::Any { disable_parallel_tool_use }),
    {
        ToolChoice::Any { disable_parallel_tool_use }
    }

    /// A [`ToolChoice`] that makes the model use the tool `name`.
    pub fn tool(name: &str, disable_parallel_tool_use: Option<bool>) -> (r: Self)
        ensures
            r matches ToolChoice::Tool { name: n, disable_parallel_tool_use: d } && n@ == name@ && d
                == disable_parallel_tool_use,
    {
        ToolChoice::Tool { name: text(name), disable_parallel_tool_use }
    }
}

/// Configuration for calling MCP server tools.
#[derive(Debug, Clone)]
pub struct McpToolConfig {
    /// The server tools that the model is allowed to call.
    pub allowed_tools: Vec<String>,
    /// Whether tool calling is enabled for the associated server.
    pub enabled: Option<bool>,
}

impl Default for McpToolConfig {
    fn default() -> (r: Self)
        ensures
            r.allowed_tools@.len() == 0,
            r.enabled is None,
    {
        McpToolConfig { allowed_tools: Vec::new(), enabled: None }
    }
}

/// Tool use content part.
#[derive(Debug, Clone)]
pub struct ToolUse {
    pub id: String,
    pub input: Json,
    pub name: String,
    pub cache_control: Option<CacheControl>,
}

/// Tool call result content part.
#[derive(Debug)]
pub struct ToolResult {
    pub tool_use_id: String,
    pub cache_control: Option<CacheControl>,
    pub content: Option<super::message::Content>,
    pub is_error: Option<bool>,
}

/// Server tool use content part.
#[derive(Debug, Clone)]
pub struct ServerToolUse {
    pub id: String,
    pub input: Json,
    pub name: ServerTool,
    pub cache_control: Option<CacheControl>,
}

/// Names of Anthropic server tools.
#[derive(Debug, Clone, Copy, PartialEq, Eq, Structural)]
pub enum ServerTool {
    WebSearch,
    WebFetch,
    CodeExecution,
    BashCodeExecution,
    TextEditorCodeExecution,
}

/// Web search tool result content part.
#[derive(Debug, Clone)]
pub struct WebSearchToolResult {
    pub content: Vec<WebSearchToolResultBlock>,
    pub tool_use_id: String,
    pub cache_control: Option<CacheControl>,
}

/// [`WebSearchToolResult`] result content block.
#[derive(Debug, Clone)]
pub enum WebSearchToolResultBlock {
    WebSearchResult {
        encrypted_content: String,
        title: String,
        url: String,
        page_age: Option<String>,
    },
    WebSearchToolResultError { error_code: String },
}

/// Web fetch tool result content part.
#[derive(Debug)]
pub struct WebFetchToolResult {
    pub content: WebFetchToolResultBlock,
    pub tool_use_id: String,
    pub cache_control: Option<CacheControl>,
}

/// [`WebFetchToolResult`] content block.
#[derive(Debug)]
pub enum WebFetchToolResultBlock {
    WebFetchToolResultError { error_code: String },
    WebFetchResult { url: String, retrieved_at: Option<String>, content: WebFetchResultContent },
}

/// [`WebFetchToolResultBlock`] result content.
#[derive(Debug)]
pub enum WebFetchResultContent {
    Document { source: Document, title: String },
}

/// Code execution tool result content part.
#[derive(Debug, Clone)]
pub struct CodeExecutionToolResult {
    pub content: CodeExecutionToolResultBlock,
    pub tool_use_id: String,
    pub cache_control: Option<CacheControl>,
}

/// [`CodeExecutionToolResult`] content block.
#[derive(Debug, Clone)]
pub enum CodeExecutionToolResultBlock {
    CodeExecutionToolResultError { error_code: String },
    CodeExecutionResult {
        return_code: u64,
        stderr: String,
        stdout: String,
        content: CodeExecutionOutputBlock,
    },
}

/// [`CodeExecutionToolResultBlock`] output block.
#[derive(Debug, Clone)]
pub enum CodeExecutionOutputBlock {
    CodeExecutionOutput { file_id: String },
}

/// Bash code execution tool result content part.
#[derive(Debug, Clone)]
pub struct BashCodeExecutionToolResult {
    pub tool_use_id: String,
    pub cache_control: Option<CacheControl>,
    pub content: BashCodeExecutionToolResultBlock,
}

/// [`BashCodeExecutionToolResult`] content block.
#[derive(Debug, Clone)]
pub enum BashCodeExecutionToolResultBlock {
    BashCodeExecutionToolResultError { error_code: String },
    BashCodeExecutionOutput {
        content: BashCodeExecutionOutputBlock,
        return_code: u64,
        stderr: String,
        stdout: String,
    },
}

/// [`BashCodeExecutionToolResultBlock`] output block.
#[derive(Debug, Clone)]
pub enum BashCodeExecutionOutputBlock {
    BashCodeExecutionOutput { file_id: String },
}

/// Text editor execution tool result content part.
#[derive(Debug, Clone)]
pub struct TextEditorExecutionToolResult {
    pub tool_use_id: String,
    pub cache_control: Option<CacheControl>,
    pub content: TextEditorExecutionToolResultBlock,
}

/// [`TextEditorExecutionToolResult`] content block.
#[derive(Debug, Clone)]
pub enum TextEditorExecutionToolResultBlock {
    TextEditorCodeExecutionToolResultError { error_code: String, error_message: Option<String> },
    TextEditorCodeExecutionViewResult {
        content: String,
        file_type: String,
        num_lines: Option<u64>,
        start_line: Option<u64>,
        total_lines: Option<u64>,
    },
    TextEditorCodeExecutionCreateResult { is_file_update: bool },
    TextEditorCodeExecutionStrReplaceResult {
        lines: Vec<String>,
        new_lines: Option<u64>,
        new_start: Option<u64>,
        old_lines: Option<u64>,
        old_start: Option<u64>,
    },
}

/// MCP tool use content part.
#[derive(Debug, Clone)]
pub struct McpToolUse {
    pub id: String,
    pub input: Json,
    pub name: String,
    pub server_name: String,
    pub cache_control: Option<CacheControl>,
}

/// MCP tool result content part.
#[derive(Debug, Clone)]
pub struct McpToolResult {
    pub tool_use_id: String,
    pub cache_control: Option<CacheControl>,
    pub content: String,
    pub is_error: Option<bool>,
}

} // verus!
