//! Model Context Protocol.

use vstd::prelude::*;

verus! {

/// An MCP host.
#[derive(Debug)]
pub struct Host {}

/// Supported transport protocols.
#[derive(Debug, Clone, Copy, PartialEq, Eq, Structural)]
pub enum Transport {
    /// Shorthand for the streamable HTTP transport protocol.
    MCP,
    /// The HTTP+SSE transport protocol, which is deprecated.
    SSE,
    /// The `stdio` transport protocol.
    STD,
}

} // verus!
