//! Plain data of the agent sidecar commands.
//!
//! The sidecar processes are outside collaborators; these types only carry
//! their requests and streamed events across the command interface.

use vstd::prelude::*;

verus! {

/// One streamed event from an agent process.
#[derive(Debug, Clone)]
pub struct StreamEvent {
    /// "partial", "complete", "error" or "stopped".
    pub event_type: String,
    pub text_chunk: Option<String>,
    pub resolved_model: Option<String>,
    pub agent_session_id: Option<String>,
    pub token_usage: Option<TokenUsage>,
    pub error: Option<String>,
}

/// Token accounting reported by an agent.
#[derive(Debug, Clone)]
pub struct TokenUsage {
    pub input_tokens: u64,
    pub output_tokens: u64,
}

/// A request to run one agent over a prompt.
#[derive(Debug)]
pub struct AgentPayload {
    pub session_id: String,
    pub prompt: String,
    pub task_id: Option<String>,
    pub permission_mode: Option<String>,
    pub working_directory: Option<String>,
    pub api_key: Option<String>,
    pub model: Option<String>,
    /// Session to resume for conversation continuity, when one exists.
    pub agent_session_id: Option<String>,
}

/// Whether a tool binary was found.
#[derive(Debug)]
pub struct ToolInstalledResult {
    pub installed: bool,
}

/// Installation and authentication state of an agent tool.
#[derive(Debug)]
pub struct AuthResult {
    pub installed: bool,
    pub authenticated: bool,
    pub version: Option<String>,
    pub error: Option<String>,
}

} // verus!
