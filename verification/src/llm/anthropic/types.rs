//! The shapes of the Anthropic Messages API.

use crate::assoc::AssocList;
use crate::llm::universal::{Json, Real32};
use vstd::prelude::*;

verus! {

/// Who speaks in a message.
#[derive(Clone, Copy, Debug, PartialEq, Eq, Structural)]
pub enum Role {
    User,
    Assistant,
}

impl Default for Role {
    fn default() -> (r: Role)
        ensures
            r == Role::User,
    {
        Role::User
    }
}

/// One block of content.
#[derive(Debug, PartialEq, Eq)]
pub enum ContentBlock {
    Text { text: String },
    Image { source: String, media_type: String, data: String },
    /// Tool use content
    ToolUse { id: String, name: String, input: Json },
    /// Tool result content
    ToolResult { tool_use_id: String, content: String },
}

/// One message of a conversation.
#[derive(Debug, PartialEq, Eq)]
pub struct Message {
    pub role: Role,
    pub content: Vec<ContentBlock>,
}

/// Request body for the Messages API.
#[derive(Debug)]
pub struct MessagesRequest {
    /// The user and assistant prompts.
    pub messages: Vec<Message>,
    /// The system prompt.
    pub system: String,
    /// The model to use.
    pub model: String,
    /// The maximum number of tokens to generate before stopping.
    pub max_tokens: usize,
    /// The stop sequences to use.
    pub stop_sequences: Vec<String>,
    /// Whether to incrementally stream the response.
    pub stream: bool,
    /// Amount of randomness injected into the response.
    pub temperature: Option<Real32>,
    /// Use nucleus sampling.
    pub top_p: Option<Real32>,
    /// Only sample from the top K options for each subsequent token.
    pub top_k: Option<usize>,
    /// Tools that the model may use
    pub tools: Option<Vec<Tool>>,
    /// How the model should use tools
    pub tool_choice: Option<ToolChoice>,
    /// Request metadata
    pub metadata: Option<Metadata>,
}

/// Response body for the Messages API.
#[derive(Debug, PartialEq, Eq)]
pub struct MessagesResponse {
    /// Unique object identifier.
    pub id: String,
    /// Object type; for Messages, this is always "message".
    pub kind: String,
    /// Conversational role of the generated message.
    pub role: Role,
    /// Content generated by the model.
    pub content: Vec<ContentBlock>,
    /// The model that handled the request.
    pub model: String,
    /// The reason that generation stopped.
    pub stop_reason: Option<StopReason>,
    /// Which custom stop sequence was generated, if any.
    pub stop_sequence: Option<String>,
    /// Billing and rate-limit usage.
    pub usage: Usage,
}

/// One event of a streamed response.
#[derive(Debug, PartialEq, Eq)]
pub enum MessagesStreamEvent {
    MessageStart { message: MessagesResponse },
    ContentBlockStart { index: usize, content_block: ContentBlock },
    ContentBlockDelta { index: usize, delta: ContentBlockDelta },
    ContentBlockStop { index: usize },
    MessageDelta { delta: MessageDelta, usage: MessageDeltaUsage },
    MessageStop,
    Ping,
}

/// What a stream event adds to a content block.
#[derive(Clone, Debug, PartialEq, Eq)]
pub enum ContentBlockDelta {
    TextDelta { text: String },
}

/// The usage reported while a message is streamed.
#[derive(Clone, Copy, Debug, PartialEq, Eq, Structural)]
pub struct MessageDeltaUsage {
    pub output_tokens: usize,
}

/// What a stream event changes of the message as a whole.
#[derive(Clone, Debug, PartialEq, Eq)]
pub struct MessageDelta {
    /// The reason that generation stopped.
    pub stop_reason: Option<StopReason>,
    /// Which custom stop sequence was generated, if any.
    pub stop_sequence: Option<String>,
}

/// Error body of the Messages API.
#[derive(Clone, Debug, PartialEq, Eq)]
pub struct MessagesErrorResponse {
    pub kind: String,
    pub error: MessagesError,
}

/// The error inside an error body.
#[derive(Clone, Debug, PartialEq, Eq)]
pub struct MessagesError {
    pub kind: String,
    pub message: String,
}

/// Reason for stopping the response generation.
#[derive(Clone, Copy, Debug, PartialEq, Eq, Structural)]
pub enum StopReason {
    /// The model reached a natural stopping point.
    EndTurn,
    /// The requested max_tokens or the model's maximum was exceeded.
    MaxTokens,
    /// One of the provided custom stop_sequences was generated.
    StopSequence,
    ToolUse,
    Refusal,
}

/// Billing and rate-limit usage.
#[derive(Clone, Copy, Debug, PartialEq, Eq, Structural)]
pub struct Usage {
    /// The number of input tokens which were used.
    pub input_tokens: usize,
    /// The number of output tokens which were used.
    pub output_tokens: usize,
}

/// Tool definition
#[derive(Debug)]
pub struct Tool {
    /// Name of the tool
    pub name: String,
    /// Description of the tool
    pub description: Option<String>,
    /// JSON schema for tool input
    pub input_schema: Json,
}

/// Tool choice configuration
#[derive(Clone, Debug)]
pub enum ToolChoice {
    /// Let model choose whether to use tools
    Auto,
    /// Model must use one of the provided tools
    Any,
    /// Model must use a specific tool
    Tool { name: String },
    /// Model must not use any tools
    NoTools,
}

/// Configuration for extended thinking
#[derive(Clone, Copy, Debug, PartialEq, Eq, Structural)]
pub struct Thinking {
    /// Must be at least 1024 tokens
    pub budget_tokens: usize,
    pub type_: ThinkingType,
}

/// Whether extended thinking is on.
#[derive(Clone, Copy, Debug, PartialEq, Eq, Structural)]
pub enum ThinkingType {
    Enabled,
}

/// Message metadata
#[derive(Debug)]
pub struct Metadata {
    /// Custom metadata fields
    pub fields: AssocList<String, String>,
}

} // verus!
