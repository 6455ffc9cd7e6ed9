//! The plain data shared across every provider and capability: conversation
//! messages, tool calls, token usage, and response metadata.

use vstd::prelude::*;

use crate::json::{JsonTree, JsonValue};

verus! {

/// How many tokens a request/response round trip cost, in whatever detail the
/// provider reports.
#[derive(Debug, Clone, Copy, Default)]
pub struct Usage {
    /// Tokens consumed by the input.
    pub prompt_tokens: u32,
    /// Tokens the model generated in its reply.
    pub completion_tokens: u32,
    /// Tokens written to a prompt cache, for providers that report it.
    pub cache_write_tokens: Option<u32>,
    /// Tokens served from a prompt cache, for providers that report it.
    pub cache_read_tokens: Option<u32>,
    /// Tokens spent on internal reasoning, for providers that report it.
    pub thought_tokens: Option<u32>,
}

impl Usage {
    /// A usage report with every count at zero and no optional counts.
    pub fn zero() -> (r: Usage)
        ensures
            r == Usage::spec_zero(),
    {
        Usage {
            prompt_tokens: 0,
            completion_tokens: 0,
            cache_write_tokens: None,
            cache_read_tokens: None,
            thought_tokens: None,
        }
    }

    /// The all-zero usage report.
    pub open spec fn spec_zero() -> Usage {
        Usage {
            prompt_tokens: 0,
            completion_tokens: 0,
            cache_write_tokens: None,
            cache_read_tokens: None,
            thought_tokens: None,
        }
    }
}

/// Token usage for an embeddings or rerank call: a single input count.
#[derive(Debug, Clone, Copy, Default)]
pub struct EmbeddingsUsage {
    pub prompt_tokens: u32,
}

/// Why the model stopped generating.
#[derive(Debug, Clone, Copy, PartialEq, Eq, Structural)]
pub enum FinishReason {
    /// The model finished its reply naturally.
    Stop,
    /// The reply hit the token limit.
    Length,
    /// The model stopped to ask for one or more tool calls.
    ToolCalls,
    /// The provider's content filter cut the reply off.
    ContentFilter,
    /// Any other reason the provider reported.
    Other,
}

/// A snapshot of one rate limit the provider reported.
#[derive(Debug, Clone)]
pub struct RateLimit {
    pub name: String,
    pub limit: u64,
    pub remaining: u64,
    pub reset_at: Option<String>,
}

impl RateLimit {
    /// A copy of this rate limit.
    pub fn copy(&self) -> (r: RateLimit)
        ensures
            r == *self,
    {
        RateLimit {
            name: self.name.clone(),
            limit: self.limit,
            remaining: self.remaining,
            reset_at: copy_opt(&self.reset_at),
        }
    }
}

/// A copy of an optional string.
pub fn copy_opt(s: &Option<String>) -> (r: Option<String>)
    ensures
        r == *s,
{
    match s {
        Some(t) => Some(t.clone()),
        None => None,
    }
}

/// Provider-reported metadata about one response.
#[derive(Debug, Clone, Default)]
pub struct Meta {
    /// The provider's own identifier for this response.
    pub id: Option<String>,
    /// The model that actually generated the response.
    pub model: Option<String>,
    /// Rate-limit bookkeeping the provider included, if any.
    pub rate_limits: Vec<RateLimit>,
}

impl Meta {
    /// Metadata with no id, no model and no rate limits.
    pub fn empty() -> (r: Meta)
        ensures
            r.id is None,
            r.model is None,
            r.rate_limits@.len() == 0,
    {
        Meta { id: None, model: None, rate_limits: Vec::new() }
    }

    /// A copy of this metadata.
    pub fn copy(&self) -> (r: Meta)
        ensures
            r.id == self.id,
            r.model == self.model,
            r.rate_limits@ == self.rate_limits@,
    {
        let mut limits: Vec<RateLimit> = Vec::new();
        let mut i: usize = 0;
        while i < self.rate_limits.len()
            invariant
                i <= self.rate_limits@.len(),
                limits@ == self.rate_limits@.subrange(0, i as int),
            decreases self.rate_limits@.len() - i,
        {
            limits.push(self.rate_limits[i].copy());
            i = i + 1;
            assert(limits@ =~= self.rate_limits@.subrange(0, i as int));
        }
        assert(limits@ =~= self.rate_limits@);
        Meta { id: copy_opt(&self.id), model: copy_opt(&self.model), rate_limits: limits }
    }

    /// Metadata carrying an id and a model name, with no rate limits.
    pub fn identified(id: Option<String>, model: Option<String>) -> (r: Meta)
        ensures
            r.id == id,
            r.model == model,
            r.rate_limits@.len() == 0,
    {
        Meta { id, model, rate_limits: Vec::new() }
    }
}

/// A request from the model to call one specific tool with specific arguments.
#[derive(Debug)]
pub struct ToolCall {
    /// The provider's identifier for this call.
    pub id: String,
    /// The name of the tool the model wants to call.
    pub name: String,
    /// The arguments the model filled in.
    pub arguments: JsonValue,
}

impl DeepView for ToolCall {
    type V = (Seq<char>, Seq<char>, JsonTree);

    open spec fn deep_view(&self) -> Self::V {
        (self.id@, self.name@, self.arguments.tree())
    }
}

impl ToolCall {
    /// A deep copy of this call.
    pub fn copy(&self) -> (r: ToolCall)
        ensures
            r.deep_view() == self.deep_view(),
    {
        ToolCall { id: self.id.clone(), name: self.name.clone(), arguments: self.arguments.copy() }
    }
}

/// Deep copies of a list of tool calls, in order.
pub fn copy_tool_calls(calls: &Vec<ToolCall>) -> (r: Vec<ToolCall>)
    ensures
        r.deep_view() == calls.deep_view(),
{
    let mut out: Vec<ToolCall> = Vec::new();
    let mut i: usize = 0;
    while i < calls.len()
        invariant
            i <= calls@.len(),
            out@.len() == i,
            forall|j: int| 0 <= j < i ==> #[trigger] out@[j].deep_view() == calls@[j].deep_view(),
        decreases calls@.len() - i,
    {
        out.push(calls[i].copy());
        i = i + 1;
    }
    assert(out.deep_view() =~= calls.deep_view());
    out
}

/// What a tool returns after running successfully.
#[derive(Debug)]
pub struct ToolOutput {
    /// The text sent back to the model as the tool's result.
    pub content: String,
    /// Extra structured data produced alongside `content`; empty for most tools.
    pub artifacts: Vec<JsonValue>,
}

impl DeepView for JsonValue {
    type V = JsonTree;

    open spec fn deep_view(&self) -> JsonTree {
        self.tree()
    }
}

impl DeepView for ToolOutput {
    type V = (Seq<char>, Seq<JsonTree>);

    open spec fn deep_view(&self) -> Self::V {
        (self.content@, self.artifacts.deep_view())
    }
}

impl ToolOutput {
    /// An output carrying `content` and no artifacts.
    pub fn from_text(content: String) -> (r: ToolOutput)
        ensures
            r.content == content,
            r.artifacts@.len() == 0,
    {
        ToolOutput { content, artifacts: Vec::new() }
    }
}

impl ToolOutput {
    /// A deep copy of this output.
    pub fn copy(&self) -> (r: ToolOutput)
        ensures
            r.deep_view() == self.deep_view(),
    {
        let mut artifacts: Vec<JsonValue> = Vec::new();
        let mut i: usize = 0;
        while i < self.artifacts.len()
            invariant
                i <= self.artifacts@.len(),
                artifacts@.len() == i,
                forall|j: int| 0 <= j < i ==> #[trigger] artifacts@[j].tree() == self.artifacts@[j].tree(),
            decreases self.artifacts@.len() - i,
        {
            artifacts.push(self.artifacts[i].copy());
            i = i + 1;
        }
        assert(artifacts.deep_view() =~= self.artifacts.deep_view());
        ToolOutput { content: self.content.clone(), artifacts }
    }
}

/// Whether a tool call succeeded or failed; both are sent back to the model.
#[derive(Debug)]
pub enum ToolOutcome {
    /// The tool ran successfully.
    Output(ToolOutput),
    /// The tool failed; a plain-language description of what went wrong.
    Error(String),
}

/// The model of a [`ToolOutcome`].
pub enum OutcomeModel {
    Output((Seq<char>, Seq<JsonTree>)),
    Error(Seq<char>),
}

impl DeepView for ToolOutcome {
    type V = OutcomeModel;

    open spec fn deep_view(&self) -> OutcomeModel {
        match self {
            ToolOutcome::Output(o) => OutcomeModel::Output(o.deep_view()),
            ToolOutcome::Error(e) => OutcomeModel::Error(e@),
        }
    }
}

impl ToolOutcome {
    /// A deep copy of this outcome.
    pub fn copy(&self) -> (r: ToolOutcome)
        ensures
            r.deep_view() == self.deep_view(),
    {
        match self {
            ToolOutcome::Output(o) => ToolOutcome::Output(o.copy()),
            ToolOutcome::Error(e) => ToolOutcome::Error(e.clone()),
        }
    }
}

/// The outcome of running one [`ToolCall`], sent back to the model.
#[derive(Debug)]
pub struct ToolResult {
    /// The id of the call this is the result of.
    pub tool_call_id: String,
    /// The name of the tool that was called.
    pub tool_name: String,
    /// The arguments the tool was called with.
    pub args: JsonValue,
    /// What happened.
    pub result: ToolOutcome,
}

impl DeepView for ToolResult {
    type V = (Seq<char>, Seq<char>, JsonTree, OutcomeModel);

    open spec fn deep_view(&self) -> Self::V {
        (self.tool_call_id@, self.tool_name@, self.args.tree(), self.result.deep_view())
    }
}

impl ToolResult {
    /// A deep copy of this result.
    pub fn copy(&self) -> (r: ToolResult)
        ensures
            r.deep_view() == self.deep_view(),
    {
        ToolResult {
            tool_call_id: self.tool_call_id.clone(),
            tool_name: self.tool_name.clone(),
            args: self.args.copy(),
            result: self.result.copy(),
        }
    }
}

/// Where a piece of media's bytes are.
#[derive(Debug, Clone)]
pub enum MediaData {
    /// A URL to fetch the media from.
    Url(String),
    /// The media's bytes, base64-encoded.
    Base64(String),
}

/// One piece of media attached to a user message.
#[derive(Debug, Clone)]
pub struct Media {
    /// The media's MIME type, when known.
    pub mime_type: Option<String>,
    pub data: MediaData,
}

/// One part of a user message: text or a piece of media.
#[derive(Debug, Clone)]
pub enum MediaPart {
    Text(String),
    Image(Media),
    Document(Media),
    Audio(Media),
    Video(Media),
}

/// A system-level instruction appearing inside the conversation.
#[derive(Debug, Clone)]
pub struct SystemMessage {
    pub content: String,
}

/// A user turn: text and/or media, in order.
#[derive(Debug, Clone)]
pub struct UserMessage {
    pub content: Vec<MediaPart>,
}

impl UserMessage {
    /// A user turn holding just one text part.
    pub fn text(prompt: String) -> (r: UserMessage)
        ensures
            r.content@.len() == 1,
            r.content@[0] matches MediaPart::Text(t) && t == prompt,
    {
        let mut content: Vec<MediaPart> = Vec::new();
        content.push(MediaPart::Text(prompt));
        UserMessage { content }
    }
}

/// An assistant turn: optional text plus the tool calls it asked for.
#[derive(Debug)]
pub struct AssistantMessage {
    pub content: Option<String>,
    pub tool_calls: Vec<ToolCall>,
}

/// The results of the tools an assistant turn asked for.
#[derive(Debug)]
pub struct ToolResultMessage {
    pub tool_results: Vec<ToolResult>,
}

/// One message of a conversation.
#[derive(Debug)]
pub enum Message {
    System(SystemMessage),
    User(UserMessage),
    Assistant(AssistantMessage),
    ToolResult(ToolResultMessage),
}

} // verus!
