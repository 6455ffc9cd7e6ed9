//! The Anthropic Messages API (`POST /v1/messages`) wire format.
//!
//! `temperature` and `top_p` hold the IEEE-754 bit pattern of the `f32` value.

use vstd::prelude::*;

use crate::json::JsonValue;
use crate::schema::owned;

verus! {

/// A Messages API request.
#[derive(Debug)]
pub struct MessagesRequest {
    pub model: String,
    /// Mandatory on every request.
    pub max_tokens: u32,
    pub system: Option<SystemPrompt>,
    pub messages: Vec<MessageParam>,
    pub temperature: Option<u32>,
    pub top_p: Option<u32>,
    /// Not sent when empty.
    pub tools: Vec<MessagesTool>,
    pub tool_choice: Option<JsonValue>,
    pub stream: Option<bool>,
}

/// The system prompt: plain text, or blocks that can carry cache control.
#[derive(Debug)]
pub enum SystemPrompt {
    Text(String),
    Blocks(Vec<SystemBlock>),
}

/// One block of a system prompt.
#[derive(Debug)]
pub struct SystemBlock {
    /// Always `"text"`.
    pub kind: String,
    pub text: String,
    pub cache_control: Option<CacheControl>,
}

/// A prompt-cache breakpoint.
#[derive(Debug)]
pub struct CacheControl {
    pub kind: String,
}

impl CacheControl {
    /// The `ephemeral` cache breakpoint.
    pub fn ephemeral() -> (r: CacheControl)
        ensures
            r.kind@ == "ephemeral"@,
    {
        CacheControl { kind: owned("ephemeral") }
    }
}

/// One message of a request.
#[derive(Debug)]
pub struct MessageParam {
    /// `"user"` or `"assistant"`.
    pub role: String,
    pub content: Vec<ContentBlock>,
}

/// One block of a message's content, tagged by its `type`.
#[derive(Debug)]
pub enum ContentBlock {
    Text { text: String },
    Image { source: MediaSource },
    Document { source: MediaSource },
    ToolUse { id: String, name: String, input: JsonValue },
    ToolResult { tool_use_id: String, content: String, is_error: Option<bool> },
    /// A block of a type this library does not translate.
    Other,
}

/// Where a piece of media comes from.
#[derive(Debug)]
pub enum MediaSource {
    Url { url: String },
    Base64 { media_type: String, data: String },
}

/// A tool the model may call.
#[derive(Debug)]
pub struct MessagesTool {
    pub name: String,
    pub description: String,
    pub input_schema: JsonValue,
}

/// A Messages API response.
#[derive(Debug)]
pub struct MessagesResponse {
    pub id: String,
    pub model: String,
    pub content: Vec<ContentBlock>,
    pub stop_reason: Option<String>,
    pub usage: MessagesUsage,
}

/// Token usage of a response.
#[derive(Debug, Clone, Copy)]
pub struct MessagesUsage {
    pub input_tokens: u32,
    pub output_tokens: u32,
    pub cache_creation_input_tokens: Option<u32>,
    pub cache_read_input_tokens: Option<u32>,
}

/// One event of a streamed response, tagged by its `type`.
#[derive(Debug)]
pub enum StreamEventPayload {
    MessageStart { message: StreamMessageStart },
    ContentBlockStart { index: usize, content_block: StreamContentBlockStart },
    ContentBlockDelta { index: usize, delta: StreamDelta },
    ContentBlockStop { index: usize },
    MessageDelta { delta: StreamMessageDelta, usage: Option<StreamMessageDeltaUsage> },
    MessageStop,
    Ping,
    Error { error: StreamErrorDetail },
    /// An event of a type this library does not know.
    Unknown,
}

/// The message a stream starts.
#[derive(Debug)]
pub struct StreamMessageStart {
    pub id: String,
    pub model: String,
    pub usage: MessagesUsage,
}

/// The kind of a content block a stream starts.
#[derive(Debug)]
pub enum StreamContentBlockStart {
    Text { text: String },
    ToolUse { id: String, name: String },
    Other,
}

/// A piece of a content block in a stream.
#[derive(Debug)]
pub enum StreamDelta {
    TextDelta { text: String },
    InputJsonDelta { partial_json: String },
    Other,
}

/// The end of a streamed message.
#[derive(Debug)]
pub struct StreamMessageDelta {
    pub stop_reason: Option<String>,
}

/// The output token count reported at the end of a stream.
#[derive(Debug)]
pub struct StreamMessageDeltaUsage {
    pub output_tokens: u32,
}

/// An error reported inside a stream.
#[derive(Debug)]
pub struct StreamErrorDetail {
    pub kind: Option<String>,
    pub message: String,
}

} // verus!
