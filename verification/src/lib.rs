//! Foundation layer for an agent that talks to OpenAI-compatible chat completion
//! services: configuration, message types, endpoint validation, the decisions taken
//! on replies and streamed events, the shell tool and its policy, and the agent's
//! conversation state.

pub mod agent;
pub mod client;
pub mod error;
pub mod foreign;
pub mod laws;
pub mod text;
pub mod tools;
pub mod types;

pub use client::OpenAiCompatibleClient;
pub use error::{LlmError, Result};
pub use tools::{
    check_power_shell, load_tools, truncate, FunctionDefinition, PolicyDecision, ShellArgs,
    ToolDefinition, ToolType,
};
pub use types::{
    ChatChunk, ChatRequest, ChatResponse, Choice, ChunkChoice, FunctionCall, LlmConfig, Message,
    MessageDelta, Role, ToolCall, Usage,
};
