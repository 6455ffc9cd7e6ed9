//! Google's Generative Language API (`generateContent`) wire format.
//!
//! `temperature` and `top_p` hold the IEEE-754 bit pattern of the `f32` value.

use vstd::prelude::*;

use crate::json::JsonValue;

verus! {

/// A `generateContent` request.
#[derive(Debug)]
pub struct GenerateContentRequest {
    pub contents: Vec<Content>,
    pub system_instruction: Option<SystemInstruction>,
    pub generation_config: Option<GenerationConfig>,
    /// This library's tools as one `{"functionDeclarations": [...]}` entry,
    /// then any provider-native tools as they are. Not sent when empty.
    pub tools: Vec<JsonValue>,
    pub tool_config: Option<ToolConfig>,
}

/// One turn of the conversation.
#[derive(Debug)]
pub struct Content {
    /// `"user"` or `"model"`.
    pub role: String,
    pub parts: Vec<Part>,
}

/// The system instruction of a request.
#[derive(Debug)]
pub struct SystemInstruction {
    pub parts: Vec<Part>,
}

/// One part of a turn.
#[derive(Debug)]
pub enum Part {
    FunctionCall { function_call: FunctionCallPart },
    FunctionResponse { function_response: FunctionResponsePart },
    Text { text: String },
    InlineData { inline_data: InlineDataPart },
    FileData { file_data: FileDataPart },
    /// Any other part, kept as it is.
    Other(JsonValue),
}

/// Media embedded as base64 bytes.
#[derive(Debug)]
pub struct InlineDataPart {
    pub mime_type: String,
    pub data: String,
}

/// Media referenced by URI.
#[derive(Debug)]
pub struct FileDataPart {
    pub mime_type: String,
    pub file_uri: String,
}

/// A call of a function, with its complete arguments.
#[derive(Debug)]
pub struct FunctionCallPart {
    pub name: String,
    pub args: JsonValue,
}

/// A function's result, sent back by name.
#[derive(Debug)]
pub struct FunctionResponsePart {
    pub name: String,
    pub response: JsonValue,
}

/// The generation settings of a request.
#[derive(Debug)]
pub struct GenerationConfig {
    pub max_output_tokens: Option<u32>,
    pub temperature: Option<u32>,
    pub top_p: Option<u32>,
    pub response_mime_type: Option<String>,
    pub response_json_schema: Option<JsonValue>,
    /// Not sent when empty.
    pub stop_sequences: Vec<String>,
}

/// The functions a request declares.
#[derive(Debug)]
pub struct ToolDeclaration {
    pub function_declarations: Vec<FunctionDeclaration>,
}

/// One declared function.
#[derive(Debug)]
pub struct FunctionDeclaration {
    pub name: String,
    pub description: String,
    pub parameters_json_schema: JsonValue,
}

/// How the model may call the declared functions.
#[derive(Debug)]
pub struct ToolConfig {
    pub function_calling_config: FunctionCallingConfig,
}

/// The function-calling mode, and the functions allowed when restricted.
#[derive(Debug)]
pub struct FunctionCallingConfig {
    /// `"AUTO"`, `"NONE"` or `"ANY"`.
    pub mode: String,
    pub allowed_function_names: Option<Vec<String>>,
}

/// A `generateContent` response, or one chunk of a streamed one.
#[derive(Debug)]
pub struct GenerateContentResponse {
    pub candidates: Vec<Candidate>,
    pub usage_metadata: Option<UsageMetadata>,
    pub model_version: Option<String>,
    pub response_id: Option<String>,
    pub prompt_feedback: Option<PromptFeedback>,
}

/// One candidate reply.
#[derive(Debug)]
pub struct Candidate {
    pub content: Option<Content>,
    pub finish_reason: Option<String>,
}

/// Token usage of a response.
#[derive(Debug, Clone, Copy)]
pub struct UsageMetadata {
    pub prompt_token_count: u32,
    pub candidates_token_count: u32,
    pub cached_content_token_count: Option<u32>,
}

/// Why a prompt was declined, when it was.
#[derive(Debug)]
pub struct PromptFeedback {
    pub block_reason: Option<String>,
}

} // verus!
