//! Translates between this library's provider-agnostic types and Anthropic's
//! Messages API wire format.
//!
//! Tool results are a `user` message of `tool_result` blocks rather than a
//! separate role, system prompts go to the top-level `system` field, and
//! `max_tokens` is mandatory on every request.

use vstd::prelude::*;

use crate::error::Error;
use crate::json::{field_trees, lemma_get_field_at, string_views, tree_get_field, JsonTree, JsonValue};
use crate::providers::{join_strings, join_with, lemma_renders_push, media_mime, mime_or, renders};
use crate::schema::{object_schema_json, owned, schema_json, Schema};
use crate::structured::{StructuredRequest, StructuredResponse};
use crate::text::{Step, TextRequest, ToolChoice, ToolDefinition};
use crate::value_objects::{
    FinishReason, Media, MediaData, MediaPart, Message, Meta, ToolCall, ToolOutcome, Usage,
};

use super::wire::{
    CacheControl, ContentBlock, MediaSource, MessageParam, MessagesRequest, MessagesResponse,
    MessagesTool, MessagesUsage, SystemBlock, SystemPrompt,
};

verus! {

/// The `max_tokens` sent when a request sets none.
pub const DEFAULT_MAX_TOKENS: u32 = 4096;

/// Whether `s` is the source of a piece of media: its URL, or its base64 bytes
/// with its MIME type or `default`.
pub open spec fn source_of(m: Media, default: Seq<char>, s: MediaSource) -> bool {
    match m.data {
        MediaData::Url(u) => s matches MediaSource::Url { url } && url@ == u@,
        MediaData::Base64(d) => s matches MediaSource::Base64 { media_type, data } && media_type@
            == mime_or(m, default) && data@ == d@,
    }
}

/// How many blocks a part of a user message becomes: none for audio and
/// video, which the Messages API has no block for, one otherwise.
pub open spec fn part_block_count(p: MediaPart) -> nat {
    match p {
        MediaPart::Audio(_) => 0,
        MediaPart::Video(_) => 0,
        _ => 1,
    }
}

/// Whether `seg` are the blocks of one part of a user message: text stays
/// text, an image becomes an image block (default type `image/png`), a
/// document a document block (default `application/pdf`), and audio and video
/// are dropped.
pub open spec fn part_blocks(p: MediaPart, seg: Seq<ContentBlock>) -> bool {
    match p {
        MediaPart::Text(t) => seg.len() == 1 && (seg[0] matches ContentBlock::Text { text } && text@
            == t@),
        MediaPart::Image(m) => seg.len() == 1 && (seg[0] matches ContentBlock::Image { source }
            && source_of(m, "image/png"@, source)),
        MediaPart::Document(m) => seg.len() == 1 && (seg[0] matches ContentBlock::Document { source }
            && source_of(m, "application/pdf"@, source)),
        _ => seg.len() == 0,
    }
}

/// Whether `blocks` are the blocks of the parts `parts`, in order.
pub open spec fn user_blocks(parts: Seq<MediaPart>, blocks: Seq<ContentBlock>) -> bool
    decreases parts.len(),
{
    if parts.len() == 0 {
        blocks.len() == 0
    } else {
        let n = blocks.len() - part_block_count(parts.last());
        &&& 0 <= n
        &&& user_blocks(parts.drop_last(), blocks.subrange(0, n))
        &&& part_blocks(parts.last(), blocks.subrange(n, blocks.len() as int))
    }
}

/// Whether `b` is the block sent back for a tool result: its outcome's text,
/// flagged as an error when the tool failed.
pub open spec fn result_block_of(r: crate::value_objects::ToolResult, b: ContentBlock) -> bool {
    b matches ContentBlock::ToolResult { tool_use_id, content, is_error }
        && tool_use_id@ == r.tool_call_id@ && match r.result {
        ToolOutcome::Output(o) => content@ == o.content@ && is_error is None,
        ToolOutcome::Error(e) => content@ == e@ && is_error == Some(true),
    }
}

/// Whether `p` is the message a conversation message renders as. A system
/// message mid conversation becomes a user message (so it is not dropped); an
/// assistant message keeps its text (if any) then one `tool_use` block per
/// call; a tool-result message becomes a user message of `tool_result` blocks.
pub open spec fn param_of(m: Message, p: MessageParam) -> bool {
    match m {
        Message::System(s) => p.role@ == "user"@ && p.content@.len() == 1 && (p.content@[0] matches ContentBlock::Text {
            text,
        } && text@ == s.content@),
        Message::User(u) => p.role@ == "user"@ && user_blocks(u.content@, p.content@),
        Message::Assistant(a) => {
            let t = if a.content is Some {
                1int
            } else {
                0int
            };
            &&& p.role@ == "assistant"@
            &&& p.content@.len() == t + a.tool_calls@.len()
            &&& a.content matches Some(x) ==> (p.content@[0] matches ContentBlock::Text { text }
                && text == x)
            &&& forall|i: int|
                0 <= i < a.tool_calls@.len() ==> (#[trigger] p.content@[t + i] matches ContentBlock::ToolUse {
                    id,
                    name,
                    input,
                } && id@ == a.tool_calls@[i].id@ && name@ == a.tool_calls@[i].name@ && input.tree()
                    == a.tool_calls@[i].arguments.tree())
        },
        Message::ToolResult(t) => p.role@ == "user"@ && p.content@.len() == t.tool_results@.len()
            && forall|i: int|
            0 <= i < p.content@.len() ==> result_block_of(t.tool_results@[i], #[trigger] p.content@[i]),
    }
}

/// Whether `out` holds one message per message of `msgs`, each its rendering.
pub open spec fn renders_params(msgs: Seq<Message>, out: Seq<MessageParam>) -> bool {
    renders(msgs, out, |m: Message| 1nat, |m: Message, s: Seq<MessageParam>| s.len() == 1 && param_of(m, s[0]))
}

/// The source of a piece of media, with `default` as its MIME type when it
/// has none (a base64 source requires one).
pub fn to_media_source(media: &Media, default: &str) -> (r: MediaSource)
    ensures
        source_of(*media, default@, r),
{
    match &media.data {
        MediaData::Url(url) => MediaSource::Url { url: url.clone() },
        MediaData::Base64(data) => MediaSource::Base64 {
            media_type: media_mime(media, default),
            data: data.clone(),
        },
    }
}

/// Extending the parts by one extends their blocks by that part's blocks.
proof fn lemma_user_blocks_push(
    parts: Seq<MediaPart>,
    blocks: Seq<ContentBlock>,
    p: MediaPart,
    seg: Seq<ContentBlock>,
)
    requires
        user_blocks(parts, blocks),
        part_blocks(p, seg),
        seg.len() == part_block_count(p),
    ensures
        user_blocks(parts.push(p), blocks + seg),
{
    let all = parts.push(p);
    assert(all.drop_last() =~= parts);
    let joined = blocks + seg;
    assert(joined.subrange(0, blocks.len() as int) =~= blocks);
    assert(joined.subrange(blocks.len() as int, joined.len() as int) =~= seg);
}

/// Appends the message `message` renders as.
pub fn push_message(messages: &mut Vec<MessageParam>, message: &Message)
    ensures
        final(messages)@ == old(messages)@.push(final(messages)@.last()),
        param_of(*message, final(messages)@.last()),
{
    match message {
        Message::System(system) => {
            let mut content: Vec<ContentBlock> = Vec::new();
            content.push(ContentBlock::Text { text: system.content.clone() });
            messages.push(MessageParam { role: owned("user"), content });
        },
        Message::User(user) => {
            let mut content: Vec<ContentBlock> = Vec::new();
            let mut i: usize = 0;
            assert(user.content@.subrange(0, 0) =~= Seq::<MediaPart>::empty());
            while i < user.content.len()
                invariant
                    i <= user.content@.len(),
                    user_blocks(user.content@.subrange(0, i as int), content@),
                decreases user.content@.len() - i,
            {
                let ghost before = content@;
                match &user.content[i] {
                    MediaPart::Text(text) => content.push(ContentBlock::Text { text: text.clone() }),
                    MediaPart::Image(media) => content.push(
                        ContentBlock::Image { source: to_media_source(media, "image/png") },
                    ),
                    MediaPart::Document(media) => content.push(
                        ContentBlock::Document { source: to_media_source(media, "application/pdf") },
                    ),
                    _ => {},
                }
                proof {
                    let seg = content@.subrange(before.len() as int, content@.len() as int);
                    lemma_user_blocks_push(
                        user.content@.subrange(0, i as int),
                        before,
                        user.content@[i as int],
                        seg,
                    );
                    assert(user.content@.subrange(0, i as int).push(user.content@[i as int])
                        =~= user.content@.subrange(0, i + 1));
                    assert(before + seg =~= content@);
                }
                i = i + 1;
            }
            assert(user.content@.subrange(0, user.content@.len() as int) =~= user.content@);
            messages.push(MessageParam { role: owned("user"), content });
        },
        Message::Assistant(assistant) => {
            let mut content: Vec<ContentBlock> = Vec::new();
            if let Some(text) = &assistant.content {
                content.push(ContentBlock::Text { text: text.clone() });
            }
            let t = content.len();
            let mut i: usize = 0;
            while i < assistant.tool_calls.len()
                invariant
                    i <= assistant.tool_calls@.len(),
                    t == (if assistant.content is Some { 1int } else { 0int }),
                    content@.len() == t + i,
                    assistant.content matches Some(x) ==> (content@[0] matches ContentBlock::Text {
                        text,
                    } && text == x),
                    forall|j: int|
                        0 <= j < i ==> (#[trigger] content@[t + j] matches ContentBlock::ToolUse {
                            id,
                            name,
                            input,
                        } && id@ == assistant.tool_calls@[j].id@ && name@
                            == assistant.tool_calls@[j].name@ && input.tree()
                            == assistant.tool_calls@[j].arguments.tree()),
                decreases assistant.tool_calls@.len() - i,
            {
                let call = &assistant.tool_calls[i];
                content.push(
                    ContentBlock::ToolUse {
                        id: call.id.clone(),
                        name: call.name.clone(),
                        input: call.arguments.copy(),
                    },
                );
                i = i + 1;
            }
            messages.push(MessageParam { role: owned("assistant"), content });
        },
        Message::ToolResult(tool_result) => {
            let mut content: Vec<ContentBlock> = Vec::new();
            let mut i: usize = 0;
            while i < tool_result.tool_results.len()
                invariant
                    i <= tool_result.tool_results@.len(),
                    content@.len() == i,
                    forall|j: int|
                        0 <= j < i ==> result_block_of(
                            tool_result.tool_results@[j],
                            #[trigger] content@[j],
                        ),
                decreases tool_result.tool_results@.len() - i,
            {
                let result = &tool_result.tool_results[i];
                let block = match &result.result {
                    ToolOutcome::Output(output) => ContentBlock::ToolResult {
                        tool_use_id: result.tool_call_id.clone(),
                        content: output.content.clone(),
                        is_error: None,
                    },
                    ToolOutcome::Error(message) => ContentBlock::ToolResult {
                        tool_use_id: result.tool_call_id.clone(),
                        content: message.clone(),
                        is_error: Some(true),
                    },
                };
                content.push(block);
                i = i + 1;
            }
            messages.push(MessageParam { role: owned("user"), content });
        },
    }
}

/// The messages of a conversation, one per message.
fn build_messages(conversation: &Vec<Message>) -> (r: Vec<MessageParam>)
    ensures
        renders_params(conversation@, r@),
{
    let mut messages: Vec<MessageParam> = Vec::new();
    let mut k: usize = 0;
    assert(conversation@.subrange(0, 0) =~= Seq::<Message>::empty());
    while k < conversation.len()
        invariant
            k <= conversation@.len(),
            renders_params(conversation@.subrange(0, k as int), messages@),
        decreases conversation@.len() - k,
    {
        let ghost before = messages@;
        push_message(&mut messages, &conversation[k]);
        proof {
            lemma_renders_push(
                conversation@.subrange(0, k as int),
                before,
                conversation@[k as int],
                seq![messages@.last()],
                |m: Message| 1nat,
                |m: Message, s: Seq<MessageParam>| s.len() == 1 && param_of(m, s[0]),
            );
            assert(conversation@.subrange(0, k as int).push(conversation@[k as int])
                =~= conversation@.subrange(0, k + 1));
            assert(before + seq![messages@.last()] =~= messages@);
        }
        k = k + 1;
    }
    assert(conversation@.subrange(0, conversation@.len() as int) =~= conversation@);
    messages
}

/// Whether `s` is the system prompt for `prompts`: none when there are no
/// prompts; otherwise the prompts joined by blank lines, as plain text, or --
/// when the prompt is to be cached -- as one text block marked as an
/// `ephemeral` cache breakpoint.
pub open spec fn system_of(prompts: Seq<String>, cache: bool, s: Option<SystemPrompt>) -> bool {
    if prompts.len() == 0 {
        s is None
    } else if cache {
        s matches Some(SystemPrompt::Blocks(blocks)) && blocks@.len() == 1 && blocks@[0].kind@
            == "text"@ && blocks@[0].text@ == join_with(string_views(prompts), "\n\n"@) && (
        blocks@[0].cache_control matches Some(cc) && cc.kind@ == "ephemeral"@)
    } else {
        s matches Some(SystemPrompt::Text(t)) && t@ == join_with(string_views(prompts), "\n\n"@)
    }
}

/// The system prompt for the system prompts.
pub fn build_system(system_prompts: &Vec<String>, cache: bool) -> (r: Option<SystemPrompt>)
    ensures
        system_of(system_prompts@, cache, r),
{
    if system_prompts.len() == 0 {
        None
    } else {
        let text = join_strings(system_prompts, "\n\n");
        if cache {
            let mut blocks: Vec<SystemBlock> = Vec::new();
            blocks.push(
                SystemBlock {
                    kind: owned("text"),
                    text,
                    cache_control: Some(CacheControl::ephemeral()),
                },
            );
            Some(SystemPrompt::Blocks(blocks))
        } else {
            Some(SystemPrompt::Text(text))
        }
    }
}

/// Whether `w` is the wire form of the tool definition `d`.
pub open spec fn wire_tool_of(w: MessagesTool, d: ToolDefinition) -> bool {
    &&& w.name@ == d.name@
    &&& w.description@ == d.description@
    &&& w.input_schema.tree() == schema_json(Schema::Object(d.parameters))
}

/// The wire form of a tool definition.
pub fn to_wire_tool(tool: &ToolDefinition) -> (r: MessagesTool)
    ensures
        wire_tool_of(r, *tool),
{
    MessagesTool {
        name: tool.name.clone(),
        description: tool.description.clone(),
        input_schema: object_schema_json(&tool.parameters),
    }
}

/// The `tool_choice` sent for `choice`: nothing when the request has no tools
/// or forbids tool calls (the Messages API has no such choice).
pub open spec fn tool_choice_tree(choice: ToolChoice, no_tools: bool) -> Option<JsonTree> {
    if no_tools {
        None
    } else {
        match choice {
            ToolChoice::Auto => Some(JsonTree::Object(seq![("type"@, JsonTree::Str("auto"@))])),
            ToolChoice::NoTool => None,
            ToolChoice::Any => Some(JsonTree::Object(seq![("type"@, JsonTree::Str("any"@))])),
            ToolChoice::Tool(name) => Some(forced_tool_tree(name@)),
        }
    }
}

/// What a request with tools tells the model about calling them: `Auto`
/// lets it choose (`"type": "auto"`), `Any` makes it call some tool
/// (`"type": "any"`), `Tool(name)` makes it call that tool (`"type": "tool"`
/// with that `"name"`), and `NoTool` sends no choice. A request without tools
/// sends no choice at all.
pub proof fn law_tool_choice_wire(choice: ToolChoice)
    ensures
        tool_choice_tree(choice, true) is None,
        choice is Auto ==> (tool_choice_tree(choice, false) matches Some(t) && tree_get_field(
            t,
            "type"@,
        ) == Some(JsonTree::Str("auto"@))),
        choice is Any ==> (tool_choice_tree(choice, false) matches Some(t) && tree_get_field(
            t,
            "type"@,
        ) == Some(JsonTree::Str("any"@))),
        choice matches ToolChoice::Tool(name) ==> (tool_choice_tree(choice, false) matches Some(t)
            && tree_get_field(t, "type"@) == Some(JsonTree::Str("tool"@)) && tree_get_field(
            t,
            "name"@,
        ) == Some(JsonTree::Str(name@))),
        choice is NoTool ==> tool_choice_tree(choice, false) is None,
{
    reveal_strlit("type");
    reveal_strlit("name");
    assert("type"@[0] != "name"@[0]);
    match choice {
        ToolChoice::Auto => lemma_get_field_at(seq![("type"@, JsonTree::Str("auto"@))], "type"@, 0),
        ToolChoice::Any => lemma_get_field_at(seq![("type"@, JsonTree::Str("any"@))], "type"@, 0),
        ToolChoice::Tool(name) => {
            let fields = seq![("type"@, JsonTree::Str("tool"@)), ("name"@, JsonTree::Str(name@))];
            lemma_get_field_at(fields, "type"@, 0);
            lemma_get_field_at(fields, "name"@, 1);
        },
        ToolChoice::NoTool => {},
    }
}

/// Different tool choices reach the model as different choices: with tools
/// present, two choices that send the same `tool_choice` are the same kind of
/// choice, and forced tools of the same name.
pub proof fn law_tool_choices_told_apart(a: ToolChoice, b: ToolChoice)
    requires
        tool_choice_tree(a, false) == tool_choice_tree(b, false),
    ensures
        a is Auto <==> b is Auto,
        a is Any <==> b is Any,
        a is NoTool <==> b is NoTool,
        a matches ToolChoice::Tool(x) ==> (b matches ToolChoice::Tool(y) && x@ == y@),
{
    law_tool_choice_wire(a);
    law_tool_choice_wire(b);
    reveal_strlit("auto");
    reveal_strlit("any");
    reveal_strlit("tool");
    assert("auto"@.len() != "any"@.len());
    assert("tool"@.len() != "any"@.len());
    assert("auto"@[0] != "tool"@[0]);
}

/// The `tool_choice` that forces a call of the tool named `name`.
pub open spec fn forced_tool_tree(name: Seq<char>) -> JsonTree {
    JsonTree::Object(seq![("type"@, JsonTree::Str("tool"@)), ("name"@, JsonTree::Str(name))])
}

/// The models of an optional JSON value.
pub open spec fn opt_tree(v: Option<JsonValue>) -> Option<JsonTree> {
    match v {
        Some(x) => Some(x.tree()),
        None => None,
    }
}

/// The `tool_choice` forcing a call of the tool named `name`.
fn forced_tool(name: &String) -> (r: JsonValue)
    ensures
        r.tree() == forced_tool_tree(name@),
{
    let mut fields: Vec<(String, JsonValue)> = Vec::new();
    fields.push((owned("type"), JsonValue::text("tool")));
    fields.push((owned("name"), JsonValue::Str(name.clone())));
    let r = JsonValue::object(fields);
    assert(field_trees(fields@) =~= seq![("type"@, JsonTree::Str("tool"@)), ("name"@, JsonTree::Str(name@))]);
    r
}

/// The `tool_choice` sent for `choice`.
pub fn to_wire_tool_choice(choice: &ToolChoice, no_tools: bool) -> (r: Option<JsonValue>)
    ensures
        opt_tree(r) == tool_choice_tree(*choice, no_tools),
{
    if no_tools {
        return None;
    }
    match choice {
        ToolChoice::Auto => Some(JsonValue::single_field("type", JsonValue::text("auto"))),
        ToolChoice::NoTool => None,
        ToolChoice::Any => Some(JsonValue::single_field("type", JsonValue::text("any"))),
        ToolChoice::Tool(name) => Some(forced_tool(name)),
    }
}

/// The `max_tokens` sent: the request's, or [`DEFAULT_MAX_TOKENS`].
pub open spec fn max_tokens_of(m: Option<u32>) -> u32 {
    match m {
        Some(x) => x,
        None => DEFAULT_MAX_TOKENS,
    }
}

/// Builds the Messages API request for a text request.
pub fn build_request(request: &TextRequest) -> (r: MessagesRequest)
    ensures
        r.model@ == request.model@,
        r.max_tokens == max_tokens_of(request.max_tokens),
        system_of(request.system_prompts@, request.cache_system_prompt, r.system),
        renders_params(request.messages@, r.messages@),
        r.temperature == request.temperature,
        r.top_p == request.top_p,
        r.tools@.len() == request.tools@.len(),
        forall|i: int| 0 <= i < r.tools@.len() ==> wire_tool_of(#[trigger] r.tools@[i], request.tools@[i]),
        opt_tree(r.tool_choice) == tool_choice_tree(request.tool_choice, request.tools@.len() == 0),
        r.stream is None,
{
    let mut tools: Vec<MessagesTool> = Vec::new();
    let mut i: usize = 0;
    while i < request.tools.len()
        invariant
            i <= request.tools@.len(),
            tools@.len() == i,
            forall|j: int| 0 <= j < i ==> wire_tool_of(#[trigger] tools@[j], request.tools@[j]),
        decreases request.tools@.len() - i,
    {
        tools.push(to_wire_tool(&request.tools[i]));
        i = i + 1;
    }
    MessagesRequest {
        model: request.model.clone(),
        max_tokens: match request.max_tokens {
            Some(x) => x,
            None => DEFAULT_MAX_TOKENS,
        },
        system: build_system(&request.system_prompts, request.cache_system_prompt),
        messages: build_messages(&request.messages),
        temperature: request.temperature,
        top_p: request.top_p,
        tools,
        tool_choice: to_wire_tool_choice(&request.tool_choice, request.tools.len() == 0),
        stream: None,
    }
}

/// The description of the structured-output tool: the schema's own, or a
/// generic one.
pub open spec fn structured_description(d: Option<String>) -> Seq<char> {
    match d {
        Some(x) => x@,
        None => "Structured output matching the requested schema."@,
    }
}

/// Builds the Messages API request for a structured-output call. The
/// Messages API has no structured-output format, so the request defines one
/// tool shaped exactly like the schema and forces the model to call it; the
/// call's input is the data.
pub fn build_structured_request(request: &StructuredRequest) -> (r: MessagesRequest)
    ensures
        r.model@ == request.model@,
        r.max_tokens == max_tokens_of(request.max_tokens),
        system_of(request.system_prompts@, false, r.system),
        renders_params(request.messages@, r.messages@),
        r.temperature == request.temperature,
        r.top_p == request.top_p,
        r.tools@.len() == 1,
        r.tools@[0].name@ == request.schema.name@,
        r.tools@[0].description@ == structured_description(request.schema.description),
        r.tools@[0].input_schema.tree() == schema_json(Schema::Object(request.schema)),
        opt_tree(r.tool_choice) == Some(forced_tool_tree(request.schema.name@)),
        r.stream is None,
{
    let description = match &request.schema.description {
        Some(d) => d.clone(),
        None => owned("Structured output matching the requested schema."),
    };
    let mut tools: Vec<MessagesTool> = Vec::new();
    tools.push(
        MessagesTool {
            name: request.schema.name.clone(),
            description,
            input_schema: object_schema_json(&request.schema),
        },
    );
    MessagesRequest {
        model: request.model.clone(),
        max_tokens: match request.max_tokens {
            Some(x) => x,
            None => DEFAULT_MAX_TOKENS,
        },
        system: build_system(&request.system_prompts, false),
        messages: build_messages(&request.messages),
        temperature: request.temperature,
        top_p: request.top_p,
        tools,
        tool_choice: Some(forced_tool(&request.schema.name)),
        stream: None,
    }
}

/// The text of the text blocks of `blocks`, concatenated in order.
pub open spec fn blocks_text(blocks: Seq<ContentBlock>) -> Seq<char>
    decreases blocks.len(),
{
    if blocks.len() == 0 {
        Seq::empty()
    } else {
        match blocks.last() {
            ContentBlock::Text { text } => blocks_text(blocks.drop_last()) + text@,
            _ => blocks_text(blocks.drop_last()),
        }
    }
}

/// The `tool_use` blocks of `blocks`, in order.
pub open spec fn tool_uses(blocks: Seq<ContentBlock>) -> Seq<ContentBlock>
    decreases blocks.len(),
{
    if blocks.len() == 0 {
        Seq::empty()
    } else {
        match blocks.last() {
            ContentBlock::ToolUse { .. } => tool_uses(blocks.drop_last()).push(blocks.last()),
            _ => tool_uses(blocks.drop_last()),
        }
    }
}

/// Whether `c` is the tool call the block `b` stands for.
pub open spec fn call_of_block(c: ToolCall, b: ContentBlock) -> bool {
    b matches ContentBlock::ToolUse { id, name, input } && c.id@ == id@ && c.name@ == name@
        && c.arguments.tree() == input.tree()
}

/// What a `stop_reason` means.
pub open spec fn finish_reason_of(s: Option<String>) -> FinishReason {
    match s {
        Some(x) => if x@ == "end_turn"@ || x@ == "stop_sequence"@ {
            FinishReason::Stop
        } else if x@ == "max_tokens"@ {
            FinishReason::Length
        } else if x@ == "tool_use"@ {
            FinishReason::ToolCalls
        } else {
            FinishReason::Other
        },
        None => FinishReason::Other,
    }
}

/// Maps a `stop_reason` to a [`FinishReason`].
pub fn map_finish_reason(stop_reason: &Option<String>) -> (r: FinishReason)
    ensures
        r == finish_reason_of(*stop_reason),
{
    match stop_reason {
        Some(x) => {
            let s = x.as_str();
            if crate::json::same_text(s, "end_turn") || crate::json::same_text(s, "stop_sequence") {
                FinishReason::Stop
            } else if crate::json::same_text(s, "max_tokens") {
                FinishReason::Length
            } else if crate::json::same_text(s, "tool_use") {
                FinishReason::ToolCalls
            } else {
                FinishReason::Other
            }
        },
        None => FinishReason::Other,
    }
}

/// The [`Usage`] a Messages API usage report stands for.
pub open spec fn usage_of(u: MessagesUsage) -> Usage {
    Usage {
        prompt_tokens: u.input_tokens,
        completion_tokens: u.output_tokens,
        cache_write_tokens: u.cache_creation_input_tokens,
        cache_read_tokens: u.cache_read_input_tokens,
        thought_tokens: None,
    }
}

/// Maps a Messages API usage report to a [`Usage`].
pub fn map_usage(usage: MessagesUsage) -> (r: Usage)
    ensures
        r == usage_of(usage),
{
    Usage {
        prompt_tokens: usage.input_tokens,
        completion_tokens: usage.output_tokens,
        cache_write_tokens: usage.cache_creation_input_tokens,
        cache_read_tokens: usage.cache_read_input_tokens,
        thought_tokens: None,
    }
}

/// Turns a Messages API response into one round trip's [`Step`]: the text
/// blocks concatenated (none when empty) and one tool call per `tool_use`
/// block; blocks of other types are skipped.
pub fn parse_response(response: MessagesResponse) -> (r: Step)
    ensures
        blocks_text(response.content@).len() > 0 ==> (r.text matches Some(t) && t@ == blocks_text(
            response.content@,
        )),
        blocks_text(response.content@).len() == 0 ==> r.text is None,
        r.tool_calls@.len() == tool_uses(response.content@).len(),
        forall|i: int|
            0 <= i < r.tool_calls@.len() ==> call_of_block(
                #[trigger] r.tool_calls@[i],
                tool_uses(response.content@)[i],
            ),
        r.finish_reason == finish_reason_of(response.stop_reason),
        r.usage == usage_of(response.usage),
        r.meta.id == Some(response.id),
        r.meta.model == Some(response.model),
        r.meta.rate_limits@.len() == 0,
{
    let mut text = String::new();
    let mut tool_calls: Vec<ToolCall> = Vec::new();
    let blocks = &response.content;
    let mut i: usize = 0;
    while i < blocks.len()
        invariant
            i <= blocks@.len(),
            text@ == blocks_text(blocks@.subrange(0, i as int)),
            tool_calls@.len() == tool_uses(blocks@.subrange(0, i as int)).len(),
            forall|j: int|
                0 <= j < tool_calls@.len() ==> call_of_block(
                    #[trigger] tool_calls@[j],
                    tool_uses(blocks@.subrange(0, i as int))[j],
                ),
        decreases blocks@.len() - i,
    {
        proof {
            assert(blocks@.subrange(0, i + 1).drop_last() =~= blocks@.subrange(0, i as int));
        }
        match &blocks[i] {
            ContentBlock::Text { text: t } => {
                text.append(t.as_str());
            },
            ContentBlock::ToolUse { id, name, input } => {
                tool_calls.push(ToolCall { id: id.clone(), name: name.clone(), arguments: input.copy() });
            },
            _ => {},
        }
        i = i + 1;
    }
    assert(blocks@.subrange(0, blocks@.len() as int) =~= blocks@);
    let finish_reason = map_finish_reason(&response.stop_reason);
    let usage = map_usage(response.usage);
    let MessagesResponse { id, model, .. } = response;
    Step {
        text: if text.as_str().is_empty() {
            None
        } else {
            Some(text)
        },
        tool_calls,
        finish_reason,
        usage,
        meta: Meta::identified(Some(id), Some(model)),
    }
}

/// The finish reason of a structured-output reply: the forced tool call
/// (`tool_use`) is the success case and counts as `Stop`; any other stop
/// reason keeps its usual meaning.
pub open spec fn structured_finish_reason(s: Option<String>) -> FinishReason {
    match s {
        Some(x) => if x@ == "tool_use"@ {
            FinishReason::Stop
        } else {
            finish_reason_of(s)
        },
        None => finish_reason_of(s),
    }
}

/// Turns a Messages API response for a structured-output request into a
/// [`StructuredResponse`]: the input of the first `tool_use` block is the
/// data. A response with no `tool_use` block is an
/// [`Error::StructuredDecode`].
pub fn parse_structured_response(response: MessagesResponse, provider_name: &str) -> (r: Result<
    StructuredResponse,
    Error,
>)
    ensures
        tool_uses(response.content@).len() == 0 ==> (r matches Err(
            Error::StructuredDecode { provider, message },
        ) && provider@ == provider_name@ && message@
            == "response contained no tool_use block with the structured output"@),
        tool_uses(response.content@).len() > 0 ==> (r matches Ok(resp) && (tool_uses(
            response.content@,
        )[0] matches ContentBlock::ToolUse { input, .. } && resp.data.tree() == input.tree())
            && resp.finish_reason == structured_finish_reason(response.stop_reason) && resp.usage
            == usage_of(response.usage) && resp.meta.id == Some(response.id) && resp.meta.model
            == Some(response.model) && resp.meta.rate_limits@.len() == 0),
{
    let blocks = &response.content;
    let mut found: Option<JsonValue> = None;
    let mut i: usize = 0;
    while i < blocks.len()
        invariant
            i <= blocks@.len(),
            found is None ==> tool_uses(blocks@.subrange(0, i as int)).len() == 0,
            found matches Some(v) ==> tool_uses(blocks@.subrange(0, i as int)).len() > 0 && (tool_uses(
                blocks@.subrange(0, i as int),
            )[0] matches ContentBlock::ToolUse { input, .. } && v.tree() == input.tree()),
        decreases blocks@.len() - i,
    {
        let ghost prefix = blocks@.subrange(0, i as int);
        proof {
            assert(blocks@.subrange(0, i + 1).drop_last() =~= prefix);
            lemma_tool_uses_grow(blocks@.subrange(0, i + 1));
        }
        if found.is_none() {
            if let ContentBlock::ToolUse { input, .. } = &blocks[i] {
                found = Some(input.copy());
            }
        }
        i = i + 1;
    }
    assert(blocks@.subrange(0, blocks@.len() as int) =~= blocks@);
    let data = match found {
        Some(v) => v,
        None => {
            return Err(
                Error::StructuredDecode {
                    provider: owned(provider_name),
                    message: owned("response contained no tool_use block with the structured output"),
                },
            );
        },
    };
    let finish_reason = match &response.stop_reason {
        Some(x) => if crate::json::same_text(x.as_str(), "tool_use") {
            FinishReason::Stop
        } else {
            map_finish_reason(&response.stop_reason)
        },
        None => map_finish_reason(&response.stop_reason),
    };
    let usage = map_usage(response.usage);
    let MessagesResponse { id, model, .. } = response;
    Ok(StructuredResponse { data, finish_reason, usage, meta: Meta::identified(Some(id), Some(model)) })
}

/// Growing a list of blocks keeps the `tool_use` blocks found so far, in
/// front.
proof fn lemma_tool_uses_grow(blocks: Seq<ContentBlock>)
    requires
        blocks.len() > 0,
    ensures
        tool_uses(blocks.drop_last()).len() > 0 ==> tool_uses(blocks)[0] == tool_uses(
            blocks.drop_last(),
        )[0] && tool_uses(blocks).len() > 0,
        tool_uses(blocks.drop_last()).len() == 0 && blocks.last() is ToolUse ==> tool_uses(
            blocks,
        ).len() == 1 && tool_uses(blocks)[0] == blocks.last(),
        tool_uses(blocks.drop_last()).len() == 0 && !(blocks.last() is ToolUse) ==> tool_uses(
            blocks,
        ).len() == 0,
{
}

} // verus!
