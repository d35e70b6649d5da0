//! Chunks of an agent's streamed answer.
use vstd::prelude::*;

verus! {

/// A streamed chunk from the agent.
#[derive(Debug)]
pub enum AgentStreamChunk {
    /// Text from the model.
    Text(String),
    /// A tool started.
    ToolStart { tool_id: String, tool_name: String, args: serde_json::Value },
    /// A tool's result.
    ToolResult { tool_id: String, result: String },
    /// All tools are done.
    ToolEnd,
    /// The stream is complete.
    Done,
}

} // verus!
