//! The OpenAI Chat Completions API (`POST /v1/chat/completions`) wire format.
//!
//! `temperature` and `top_p` hold the IEEE-754 bit pattern of the `f32` value.

use vstd::prelude::*;

use crate::json::JsonValue;

verus! {

/// A chat completion request.
#[derive(Debug)]
pub struct ChatRequest {
    pub model: String,
    pub messages: Vec<ChatMessage>,
    pub max_tokens: Option<u32>,
    pub temperature: Option<u32>,
    pub top_p: Option<u32>,
    /// Not sent when empty.
    pub tools: Vec<ChatTool>,
    pub tool_choice: Option<JsonValue>,
    pub stream: Option<bool>,
    /// Only meaningful with `stream: Some(true)`: asks for one final chunk
    /// carrying token usage.
    pub stream_options: Option<JsonValue>,
    /// Set for structured-output requests: `{"type": "json_schema",
    /// "json_schema": {"name", "schema", "strict"}}`.
    pub response_format: Option<JsonValue>,
}

/// One message of a chat completion request, tagged by its `role`.
#[derive(Debug)]
pub enum ChatMessage {
    System { content: String },
    User { content: String },
    Assistant { content: Option<String>, tool_calls: Vec<ChatToolCall> },
    Tool { tool_call_id: String, content: String },
}

/// A tool call, as sent back in an assistant message or received in a reply.
#[derive(Debug)]
pub struct ChatToolCall {
    pub id: String,
    /// Always `"function"`.
    pub kind: String,
    pub function: ChatToolCallFunction,
}

/// The function a tool call calls, with its arguments as JSON text.
#[derive(Debug)]
pub struct ChatToolCallFunction {
    pub name: String,
    pub arguments: String,
}

/// A tool the model may call.
#[derive(Debug)]
pub struct ChatTool {
    /// Always `"function"`.
    pub kind: String,
    pub function: ChatToolFunction,
}

/// The description of a tool's function.
#[derive(Debug)]
pub struct ChatToolFunction {
    pub name: String,
    pub description: String,
    pub parameters: JsonValue,
}

/// A chat completion response.
#[derive(Debug)]
pub struct ChatResponse {
    pub id: String,
    pub model: String,
    pub choices: Vec<ChatChoice>,
    pub usage: Option<ChatUsage>,
}

/// One choice of a chat completion response.
#[derive(Debug)]
pub struct ChatChoice {
    pub message: ChatResponseMessage,
    pub finish_reason: String,
}

/// The message of a choice.
#[derive(Debug)]
pub struct ChatResponseMessage {
    pub content: Option<String>,
    pub tool_calls: Vec<ChatToolCall>,
    /// Set instead of `content` when the model declines a structured-output
    /// request.
    pub refusal: Option<String>,
}

/// Token usage of a chat completion.
#[derive(Debug, Clone, Copy)]
pub struct ChatUsage {
    pub prompt_tokens: u32,
    pub completion_tokens: u32,
    pub prompt_tokens_details: Option<ChatPromptTokensDetails>,
}

/// Details of the prompt tokens.
#[derive(Debug, Clone, Copy)]
pub struct ChatPromptTokensDetails {
    pub cached_tokens: Option<u32>,
}

/// One `data: {...}` chunk of a streamed chat completion. Each chunk carries
/// only what changed since the last one.
#[derive(Debug)]
pub struct ChatStreamChunk {
    pub id: Option<String>,
    pub model: Option<String>,
    pub choices: Vec<ChatStreamChoice>,
    pub usage: Option<ChatUsage>,
}

/// One choice of a streamed chunk.
#[derive(Debug)]
pub struct ChatStreamChoice {
    pub delta: ChatStreamDelta,
    pub finish_reason: Option<String>,
}

/// What a streamed chunk adds to the reply.
#[derive(Debug)]
pub struct ChatStreamDelta {
    pub content: Option<String>,
    pub tool_calls: Vec<ChatStreamToolCallDelta>,
}

/// A piece of a tool call in a stream: `index` says which tool call it belongs
/// to; `id` and `function.name` usually arrive once, while the arguments
/// arrive as fragments to be concatenated in order.
#[derive(Debug)]
pub struct ChatStreamToolCallDelta {
    pub index: usize,
    pub id: Option<String>,
    pub function: Option<ChatStreamFunctionDelta>,
}

/// A piece of a tool call's function in a stream.
#[derive(Debug)]
pub struct ChatStreamFunctionDelta {
    pub name: Option<String>,
    pub arguments: Option<String>,
}

} // verus!
