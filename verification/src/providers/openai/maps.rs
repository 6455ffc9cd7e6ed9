//! Translates between this library's provider-agnostic types and OpenAI's
//! Chat Completions wire format.

use vstd::prelude::*;

use crate::error::Error;
use crate::json::{
    json_to_text, lemma_get_field_at, parse_json_text, parsed_json, printed_json, tree_get_field,
    JsonTree, JsonValue,
};
use crate::providers::{lemma_renders_push, renders};
use crate::schema::{object_schema_json, owned, schema_json, Schema};
use crate::structured::{StructuredRequest, StructuredResponse};
use crate::text::{Step, TextRequest, ToolChoice, ToolDefinition};
use crate::value_objects::{
    copy_opt, FinishReason, MediaPart, Message, Meta, ToolCall, ToolOutcome, ToolResult, Usage,
    UserMessage,
};

use super::wire::{
    ChatMessage, ChatRequest, ChatResponse, ChatTool, ChatToolCall,
    ChatToolCallFunction, ChatToolFunction, ChatUsage,
};

verus! {

/// The text parts of a user message, in order.
pub open spec fn text_parts(parts: Seq<MediaPart>) -> Seq<Seq<char>>
    decreases parts.len(),
{
    if parts.len() == 0 {
        Seq::empty()
    } else {
        let rest = text_parts(parts.drop_last());
        match parts.last() {
            MediaPart::Text(t) => rest.push(t@),
            _ => rest,
        }
    }
}

/// `items` joined with a newline between each two.
pub open spec fn join_lines(items: Seq<Seq<char>>) -> Seq<char>
    decreases items.len(),
{
    if items.len() == 0 {
        Seq::empty()
    } else if items.len() == 1 {
        items[0]
    } else {
        join_lines(items.drop_last()) + seq!['\n'] + items.last()
    }
}

/// The text sent back to the model for a tool's outcome: its output's content,
/// or its error message.
pub open spec fn outcome_text(o: ToolOutcome) -> Seq<char> {
    match o {
        ToolOutcome::Output(out) => out.content@,
        ToolOutcome::Error(m) => m@,
    }
}

/// Whether `w` is the wire form of the tool call `c`: same id and name, kind
/// `"function"`, and the arguments as compact JSON text.
pub open spec fn wire_call_of(w: ChatToolCall, c: ToolCall) -> bool {
    &&& w.id@ == c.id@
    &&& w.kind@ == "function"@
    &&& w.function.name@ == c.name@
    &&& w.function.arguments@ == printed_json(c.arguments.tree())
}

/// How many chat messages a message renders as: one per tool result for a
/// tool-result message, one otherwise.
pub open spec fn chat_count(m: Message) -> nat {
    match m {
        Message::ToolResult(t) => t.tool_results@.len(),
        _ => 1,
    }
}

/// Whether `seg` is the rendering of `m` as chat messages: a system message
/// keeps its role, a user message becomes its text parts joined by newlines
/// (media is not sent), an assistant message keeps its text and tool calls,
/// and each tool result becomes one `tool` message with its outcome's text.
pub open spec fn chat_one(m: Message, seg: Seq<ChatMessage>) -> bool {
    match m {
        Message::System(s) => seg.len() == 1 && (seg[0] matches ChatMessage::System { content }
            && content@ == s.content@),
        Message::User(u) => seg.len() == 1 && (seg[0] matches ChatMessage::User { content }
            && content@ == join_lines(text_parts(u.content@))),
        Message::Assistant(a) => seg.len() == 1 && (seg[0] matches ChatMessage::Assistant {
            content,
            tool_calls,
        } && content == a.content && tool_calls@.len() == a.tool_calls@.len() && forall|i: int|
            0 <= i < tool_calls@.len() ==> wire_call_of(
                #[trigger] tool_calls@[i],
                a.tool_calls@[i],
            )),
        Message::ToolResult(t) => seg.len() == t.tool_results@.len() && forall|i: int|
            0 <= i < seg.len() ==> (#[trigger] seg[i] matches ChatMessage::Tool {
                tool_call_id,
                content,
            } && tool_call_id@ == t.tool_results@[i].tool_call_id@ && content@ == outcome_text(
                t.tool_results@[i].result,
            )),
    }
}

/// Whether `out` is the rendering of the conversation `msgs` as chat messages.
pub open spec fn renders_chat(msgs: Seq<Message>, out: Seq<ChatMessage>) -> bool {
    renders(msgs, out, |m: Message| chat_count(m), |m: Message, s: Seq<ChatMessage>| chat_one(m, s))
}

/// Whether the first `prompts.len()` messages of `out` are the system prompts,
/// in order, and the rest renders `msgs`.
pub open spec fn chat_messages_of(
    prompts: Seq<String>,
    msgs: Seq<Message>,
    out: Seq<ChatMessage>,
) -> bool {
    &&& out.len() >= prompts.len()
    &&& forall|i: int|
        0 <= i < prompts.len() ==> (#[trigger] out[i] matches ChatMessage::System { content }
            && content@ == prompts[i]@)
    &&& renders_chat(msgs, out.subrange(prompts.len() as int, out.len() as int))
}

/// Whether `w` is the wire form of the tool definition `d`.
pub open spec fn wire_tool_of(w: ChatTool, d: ToolDefinition) -> bool {
    &&& w.kind@ == "function"@
    &&& w.function.name@ == d.name@
    &&& w.function.description@ == d.description@
    &&& w.function.parameters.tree() == schema_json(Schema::Object(d.parameters))
}

/// The `tool_choice` sent for `choice`: nothing when the request has no tools.
pub open spec fn tool_choice_tree(choice: ToolChoice, no_tools: bool) -> Option<JsonTree> {
    if no_tools {
        None
    } else {
        match choice {
            ToolChoice::Auto => Some(JsonTree::Str("auto"@)),
            ToolChoice::NoTool => Some(JsonTree::Str("none"@)),
            ToolChoice::Any => Some(JsonTree::Str("required"@)),
            ToolChoice::Tool(name) => Some(
                JsonTree::Object(
                    seq![
                        ("type"@, JsonTree::Str("function"@)),
                        ("function"@, JsonTree::Object(seq![("name"@, JsonTree::Str(name@))])),
                    ],
                ),
            ),
        }
    }
}

/// What a request with tools tells the model about calling them: `Auto` is
/// `"auto"` (the model chooses), `NoTool` is `"none"` (no call this turn),
/// `Any` is `"required"` (some call), and `Tool(name)` is a `"function"`
/// choice naming that tool. A request without tools sends no choice.
pub proof fn law_tool_choice_wire(choice: ToolChoice)
    ensures
        tool_choice_tree(choice, true) is None,
        choice is Auto ==> tool_choice_tree(choice, false) == Some(JsonTree::Str("auto"@)),
        choice is NoTool ==> tool_choice_tree(choice, false) == Some(JsonTree::Str("none"@)),
        choice is Any ==> tool_choice_tree(choice, false) == Some(JsonTree::Str("required"@)),
        choice matches ToolChoice::Tool(name) ==> (tool_choice_tree(choice, false) matches Some(t)
            && tree_get_field(t, "type"@) == Some(JsonTree::Str("function"@)) && (tree_get_field(
            t,
            "function"@,
        ) matches Some(f) && tree_get_field(f, "name"@) == Some(JsonTree::Str(name@)))),
{
    if let ToolChoice::Tool(name) = choice {
        reveal_strlit("type");
        reveal_strlit("function");
        assert("type"@.len() != "function"@.len());
        let inner = seq![("name"@, JsonTree::Str(name@))];
        let fields = seq![("type"@, JsonTree::Str("function"@)), ("function"@, JsonTree::Object(inner))];
        lemma_get_field_at(fields, "type"@, 0);
        lemma_get_field_at(fields, "function"@, 1);
        lemma_get_field_at(inner, "name"@, 0);
    }
}

/// Different tool choices reach the model as different choices: with tools
/// present, two choices that send the same `tool_choice` are the same kind of
/// choice, and forced tools of the same name.
pub proof fn law_tool_choices_told_apart(a: ToolChoice, b: ToolChoice)
    requires
        tool_choice_tree(a, false) == tool_choice_tree(b, false),
    ensures
        a is Auto <==> b is Auto,
        a is NoTool <==> b is NoTool,
        a is Any <==> b is Any,
        a matches ToolChoice::Tool(x) ==> (b matches ToolChoice::Tool(y) && x@ == y@),
{
    law_tool_choice_wire(a);
    law_tool_choice_wire(b);
    reveal_strlit("auto");
    reveal_strlit("none");
    reveal_strlit("required");
    assert("auto"@.len() != "required"@.len());
    assert("none"@.len() != "required"@.len());
    assert("auto"@[0] != "none"@[0]);
}

/// The models of an optional JSON value.
pub open spec fn opt_tree(v: Option<JsonValue>) -> Option<JsonTree> {
    match v {
        Some(x) => Some(x.tree()),
        None => None,
    }
}

/// The chat messages of a request: the system prompts, then the conversation.
fn build_messages(system_prompts: &Vec<String>, conversation: &Vec<Message>) -> (r: Vec<ChatMessage>)
    ensures
        chat_messages_of(system_prompts@, conversation@, r@),
{
    let mut messages: Vec<ChatMessage> = Vec::new();
    let mut i: usize = 0;
    while i < system_prompts.len()
        invariant
            i <= system_prompts@.len(),
            messages@.len() == i,
            forall|j: int|
                0 <= j < i ==> (#[trigger] messages@[j] matches ChatMessage::System { content }
                    && content@ == system_prompts@[j]@),
        decreases system_prompts@.len() - i,
    {
        messages.push(ChatMessage::System { content: system_prompts[i].clone() });
        i = i + 1;
    }
    let start = messages.len();
    let mut k: usize = 0;
    assert(conversation@.subrange(0, 0) =~= Seq::<Message>::empty());
    assert(messages@.subrange(start as int, start as int) =~= Seq::<ChatMessage>::empty());
    while k < conversation.len()
        invariant
            start == system_prompts@.len(),
            k <= conversation@.len(),
            messages@.len() >= start,
            forall|j: int|
                0 <= j < start ==> (#[trigger] messages@[j] matches ChatMessage::System { content }
                    && content@ == system_prompts@[j]@),
            renders_chat(
                conversation@.subrange(0, k as int),
                messages@.subrange(start as int, messages@.len() as int),
            ),
        decreases conversation@.len() - k,
    {
        let ghost before = messages@;
        push_message(&mut messages, &conversation[k]);
        proof {
            let seg = messages@.subrange(before.len() as int, messages@.len() as int);
            lemma_renders_push(
                conversation@.subrange(0, k as int),
                before.subrange(start as int, before.len() as int),
                conversation@[k as int],
                seg,
                |m: Message| chat_count(m),
                |m: Message, s: Seq<ChatMessage>| chat_one(m, s),
            );
            assert(conversation@.subrange(0, k as int).push(conversation@[k as int])
                =~= conversation@.subrange(0, k + 1));
            assert(before.subrange(start as int, before.len() as int) + seg =~= messages@.subrange(
                start as int,
                messages@.len() as int,
            ));
            assert forall|j: int| 0 <= j < start implies (#[trigger] messages@[j] matches ChatMessage::System { content }
                && content@ == system_prompts@[j]@) by {
                assert(messages@[j] == before[j]);
            }
        }
        k = k + 1;
    }
    assert(conversation@.subrange(0, conversation@.len() as int) =~= conversation@);
    messages
}

/// Builds the Chat Completions request for a text request.
pub fn build_request(request: &TextRequest) -> (r: ChatRequest)
    ensures
        r.model@ == request.model@,
        chat_messages_of(request.system_prompts@, request.messages@, r.messages@),
        r.max_tokens == request.max_tokens,
        r.temperature == request.temperature,
        r.top_p == request.top_p,
        r.tools@.len() == request.tools@.len(),
        forall|i: int| 0 <= i < r.tools@.len() ==> wire_tool_of(#[trigger] r.tools@[i], request.tools@[i]),
        opt_tree(r.tool_choice) == tool_choice_tree(request.tool_choice, request.tools@.len() == 0),
        r.stream is None,
        r.stream_options is None,
        r.response_format is None,
{
    let messages = build_messages(&request.system_prompts, &request.messages);
    let mut tools: Vec<ChatTool> = Vec::new();
    let mut i: usize = 0;
    while i < request.tools.len()
        invariant
            i <= request.tools@.len(),
            tools@.len() == i,
            forall|j: int| 0 <= j < i ==> wire_tool_of(#[trigger] tools@[j], request.tools@[j]),
        decreases request.tools@.len() - i,
    {
        tools.push(to_wire_tool(&request.tools[i]));
        i = i + 1;
    }
    let tool_choice = to_wire_tool_choice(&request.tool_choice, request.tools.len() == 0);
    ChatRequest {
        model: request.model.clone(),
        messages,
        max_tokens: request.max_tokens,
        temperature: request.temperature,
        top_p: request.top_p,
        tools,
        tool_choice,
        stream: None,
        stream_options: None,
        response_format: None,
    }
}

/// The `response_format` of a structured-output request for an object schema
/// named `name` whose document is `schema`.
pub open spec fn response_format_tree(name: Seq<char>, schema: JsonTree) -> JsonTree {
    JsonTree::Object(
        seq![
            ("type"@, JsonTree::Str("json_schema"@)),
            (
                "json_schema"@,
                JsonTree::Object(
                    seq![
                        ("name"@, JsonTree::Str(name)),
                        ("schema"@, schema),
                        ("strict"@, JsonTree::Bool(true)),
                    ],
                ),
            ),
        ],
    )
}

/// Builds the Chat Completions request for a structured-output call, using
/// OpenAI's native `response_format: {"type": "json_schema", ...}`: the API
/// enforces the schema, so no tool is involved.
pub fn build_structured_request(request: &StructuredRequest) -> (r: ChatRequest)
    ensures
        r.model@ == request.model@,
        chat_messages_of(request.system_prompts@, request.messages@, r.messages@),
        r.max_tokens == request.max_tokens,
        r.temperature == request.temperature,
        r.top_p == request.top_p,
        r.tools@.len() == 0,
        r.tool_choice is None,
        r.stream is None,
        r.stream_options is None,
        opt_tree(r.response_format) == Some(
            response_format_tree(request.schema.name@, schema_json(Schema::Object(request.schema))),
        ),
{
    let messages = build_messages(&request.system_prompts, &request.messages);
    let mut inner: Vec<(String, JsonValue)> = Vec::new();
    inner.push((owned("name"), JsonValue::Str(request.schema.name.clone())));
    inner.push((owned("schema"), object_schema_json(&request.schema)));
    inner.push((owned("strict"), JsonValue::Bool(true)));
    let inner = JsonValue::object(inner);
    let mut outer: Vec<(String, JsonValue)> = Vec::new();
    outer.push((owned("type"), JsonValue::text("json_schema")));
    outer.push((owned("json_schema"), inner));
    let format = JsonValue::object(outer);
    proof {
        let t = response_format_tree(
            request.schema.name@,
            schema_json(Schema::Object(request.schema)),
        );
        if let JsonTree::Object(f) = format.tree() {
            if let JsonTree::Object(g) = t {
                assert(f[1].1 == g[1].1) by {
                    if let JsonTree::Object(fi) = f[1].1 {
                        if let JsonTree::Object(gi) = g[1].1 {
                            assert(fi =~= gi);
                        }
                    }
                }
                assert(f =~= g);
            }
        }
    }
    ChatRequest {
        model: request.model.clone(),
        messages,
        max_tokens: request.max_tokens,
        temperature: request.temperature,
        top_p: request.top_p,
        tools: Vec::new(),
        tool_choice: None,
        stream: None,
        stream_options: None,
        response_format: Some(format),
    }
}

/// Appends the chat messages `message` renders as.
pub fn push_message(messages: &mut Vec<ChatMessage>, message: &Message)
    ensures
        final(messages)@.len() == old(messages)@.len() + chat_count(*message),
        final(messages)@.subrange(0, old(messages)@.len() as int) == old(messages)@,
        chat_one(
            *message,
            final(messages)@.subrange(old(messages)@.len() as int, final(messages)@.len() as int),
        ),
{
    let ghost start = messages@.len();
    match message {
        Message::System(system) => {
            messages.push(ChatMessage::System { content: system.content.clone() });
        },
        Message::User(user) => {
            messages.push(ChatMessage::User { content: user_text(user) });
        },
        Message::Assistant(assistant) => {
            let mut calls: Vec<ChatToolCall> = Vec::new();
            let mut i: usize = 0;
            while i < assistant.tool_calls.len()
                invariant
                    i <= assistant.tool_calls@.len(),
                    calls@.len() == i,
                    forall|j: int|
                        0 <= j < i ==> wire_call_of(#[trigger] calls@[j], assistant.tool_calls@[j]),
                decreases assistant.tool_calls@.len() - i,
            {
                calls.push(to_wire_tool_call(&assistant.tool_calls[i]));
                i = i + 1;
            }
            messages.push(
                ChatMessage::Assistant { content: copy_opt(&assistant.content), tool_calls: calls },
            );
        },
        Message::ToolResult(tool_result) => {
            let ghost old_messages = messages@;
            let mut i: usize = 0;
            while i < tool_result.tool_results.len()
                invariant
                    i <= tool_result.tool_results@.len(),
                    messages@.len() == start + i,
                    start == old_messages.len(),
                    messages@.subrange(0, start as int) == old_messages,
                    forall|j: int|
                        start <= j < start + i ==> (#[trigger] messages@[j] matches ChatMessage::Tool {
                            tool_call_id,
                            content,
                        } && tool_call_id@ == tool_result.tool_results@[j - start].tool_call_id@
                            && content@ == outcome_text(
                            tool_result.tool_results@[j - start].result,
                        )),
                decreases tool_result.tool_results@.len() - i,
            {
                let result = &tool_result.tool_results[i];
                messages.push(
                    ChatMessage::Tool {
                        tool_call_id: result.tool_call_id.clone(),
                        content: tool_result_text(result),
                    },
                );
                i = i + 1;
                proof {
                    assert(messages@.subrange(0, start as int) =~= old_messages);
                }
            }
        },
    }
    proof {
        assert(messages@.subrange(0, start as int) =~= old(messages)@);
    }
}

/// A user message's text parts joined by newlines; media parts are not sent.
pub fn user_text(user: &UserMessage) -> (r: String)
    ensures
        r@ == join_lines(text_parts(user.content@)),
{
    let mut out = String::new();
    let mut any = false;
    let mut i: usize = 0;
    while i < user.content.len()
        invariant
            i <= user.content@.len(),
            out@ == join_lines(text_parts(user.content@.subrange(0, i as int))),
            any == (text_parts(user.content@.subrange(0, i as int)).len() > 0),
        decreases user.content@.len() - i,
    {
        let ghost before = text_parts(user.content@.subrange(0, i as int));
        proof {
            assert(user.content@.subrange(0, i + 1).drop_last() =~= user.content@.subrange(
                0,
                i as int,
            ));
        }
        match &user.content[i] {
            MediaPart::Text(t) => {
                if any {
                    out.append("\n");
                    proof {
                        reveal_strlit("\n");
                    }
                }
                out.append(t.as_str());
                any = true;
                proof {
                    assert(before.push(t@).drop_last() =~= before);
                }
            },
            _ => {},
        }
        i = i + 1;
    }
    assert(user.content@.subrange(0, user.content@.len() as int) =~= user.content@);
    out
}

/// The text sent back to the model for a tool result.
pub fn tool_result_text(result: &ToolResult) -> (r: String)
    ensures
        r@ == outcome_text(result.result),
{
    match &result.result {
        ToolOutcome::Output(output) => output.content.clone(),
        ToolOutcome::Error(message) => message.clone(),
    }
}

/// The wire form of a tool call.
pub fn to_wire_tool_call(call: &ToolCall) -> (r: ChatToolCall)
    ensures
        wire_call_of(r, *call),
{
    ChatToolCall {
        id: call.id.clone(),
        kind: owned("function"),
        function: ChatToolCallFunction {
            name: call.name.clone(),
            arguments: json_to_text(&call.arguments),
        },
    }
}

/// The wire form of a tool definition.
pub fn to_wire_tool(tool: &ToolDefinition) -> (r: ChatTool)
    ensures
        wire_tool_of(r, *tool),
{
    ChatTool {
        kind: owned("function"),
        function: ChatToolFunction {
            name: tool.name.clone(),
            description: tool.description.clone(),
            parameters: object_schema_json(&tool.parameters),
        },
    }
}

/// The `tool_choice` sent for `choice`; nothing when the request has no
/// tools.
pub fn to_wire_tool_choice(choice: &ToolChoice, no_tools: bool) -> (r: Option<JsonValue>)
    ensures
        opt_tree(r) == tool_choice_tree(*choice, no_tools),
{
    if no_tools {
        return None;
    }
    match choice {
        ToolChoice::Auto => Some(JsonValue::text("auto")),
        ToolChoice::NoTool => Some(JsonValue::text("none")),
        ToolChoice::Any => Some(JsonValue::text("required")),
        ToolChoice::Tool(name) => {
            let mut function: Vec<(String, JsonValue)> = Vec::new();
            function.push((owned("name"), JsonValue::Str(name.clone())));
            let mut fields: Vec<(String, JsonValue)> = Vec::new();
            fields.push((owned("type"), JsonValue::text("function")));
            fields.push((owned("function"), JsonValue::object(function)));
            let v = JsonValue::object(fields);
            proof {
                let t = tool_choice_tree(*choice, no_tools)->0;
                if let JsonTree::Object(f) = v.tree() {
                    if let JsonTree::Object(g) = t {
                        assert(f[1].1 == g[1].1) by {
                            if let JsonTree::Object(fi) = f[1].1 {
                                if let JsonTree::Object(gi) = g[1].1 {
                                    assert(fi =~= gi);
                                }
                            }
                        }
                        assert(f =~= g);
                    }
                }
            }
            Some(v)
        },
    }
}

/// What a Chat Completions `finish_reason` string means.
pub open spec fn finish_reason_of(s: Seq<char>) -> FinishReason {
    if s == "stop"@ {
        FinishReason::Stop
    } else if s == "length"@ {
        FinishReason::Length
    } else if s == "tool_calls"@ {
        FinishReason::ToolCalls
    } else if s == "content_filter"@ {
        FinishReason::ContentFilter
    } else {
        FinishReason::Other
    }
}

/// Maps a Chat Completions `finish_reason` string to a [`FinishReason`].
pub fn map_finish_reason(finish_reason: &str) -> (r: FinishReason)
    ensures
        r == finish_reason_of(finish_reason@),
{
    if crate::json::same_text(finish_reason, "stop") {
        FinishReason::Stop
    } else if crate::json::same_text(finish_reason, "length") {
        FinishReason::Length
    } else if crate::json::same_text(finish_reason, "tool_calls") {
        FinishReason::ToolCalls
    } else if crate::json::same_text(finish_reason, "content_filter") {
        FinishReason::ContentFilter
    } else {
        FinishReason::Other
    }
}

/// The [`Usage`] a Chat Completions usage report stands for; cached prompt
/// tokens count as cache reads.
pub open spec fn usage_of(u: ChatUsage) -> Usage {
    Usage {
        prompt_tokens: u.prompt_tokens,
        completion_tokens: u.completion_tokens,
        cache_write_tokens: None,
        cache_read_tokens: match u.prompt_tokens_details {
            Some(d) => d.cached_tokens,
            None => None,
        },
        thought_tokens: None,
    }
}

/// The usage of a response: its report, or zero when it has none.
pub open spec fn opt_usage_of(u: Option<ChatUsage>) -> Usage {
    match u {
        Some(x) => usage_of(x),
        None => Usage::spec_zero(),
    }
}

/// Maps a Chat Completions usage report to a [`Usage`].
pub fn map_usage(usage: ChatUsage) -> (r: Usage)
    ensures
        r == usage_of(usage),
{
    Usage {
        prompt_tokens: usage.prompt_tokens,
        completion_tokens: usage.completion_tokens,
        cache_write_tokens: None,
        cache_read_tokens: match usage.prompt_tokens_details {
            Some(d) => d.cached_tokens,
            None => None,
        },
        thought_tokens: None,
    }
}

/// The arguments a tool call's JSON text stands for: the parsed value, or
/// `null` when the text is not valid JSON.
pub open spec fn arguments_tree(text: Seq<char>) -> JsonTree {
    match parsed_json(text) {
        Ok(t) => t,
        Err(_) => JsonTree::Null,
    }
}

/// Parses JSON text, reading invalid text as `null`.
pub fn parse_or_null(text: &str) -> (r: JsonValue)
    ensures
        r.tree() == arguments_tree(text@),
{
    match parse_json_text(text) {
        Ok(v) => v,
        Err(_) => JsonValue::Null,
    }
}

/// Whether `c` is the tool call the wire call `w` stands for.
pub open spec fn call_of_wire(c: ToolCall, w: ChatToolCall) -> bool {
    &&& c.id@ == w.id@
    &&& c.name@ == w.function.name@
    &&& c.arguments.tree() == arguments_tree(w.function.arguments@)
}

/// The tool call a wire tool call stands for.
pub fn from_wire_tool_call(call: &ChatToolCall) -> (r: ToolCall)
    ensures
        call_of_wire(r, *call),
{
    ToolCall {
        id: call.id.clone(),
        name: call.function.name.clone(),
        arguments: parse_or_null(call.function.arguments.as_str()),
    }
}

/// Whether `meta` carries `id` and `model` and no rate limits.
pub open spec fn meta_of(meta: Meta, id: String, model: String) -> bool {
    &&& meta.id == Some(id)
    &&& meta.model == Some(model)
    &&& meta.rate_limits@.len() == 0
}

/// Turns a chat completion into one round trip's [`Step`], from its first
/// choice.
pub fn parse_response(response: ChatResponse) -> (r: Step)
    requires
        response.choices@.len() > 0,
    ensures
        r.text == response.choices@[0].message.content,
        r.tool_calls@.len() == response.choices@[0].message.tool_calls@.len(),
        forall|i: int|
            0 <= i < r.tool_calls@.len() ==> call_of_wire(
                #[trigger] r.tool_calls@[i],
                response.choices@[0].message.tool_calls@[i],
            ),
        r.finish_reason == finish_reason_of(response.choices@[0].finish_reason@),
        r.usage == opt_usage_of(response.usage),
        meta_of(r.meta, response.id, response.model),
{
    let ChatResponse { id, model, choices, usage } = response;
    let choice = &choices[0];
    let mut tool_calls: Vec<ToolCall> = Vec::new();
    let mut i: usize = 0;
    while i < choice.message.tool_calls.len()
        invariant
            i <= choice.message.tool_calls@.len(),
            tool_calls@.len() == i,
            forall|j: int|
                0 <= j < i ==> call_of_wire(#[trigger] tool_calls@[j], choice.message.tool_calls@[j]),
        decreases choice.message.tool_calls@.len() - i,
    {
        tool_calls.push(from_wire_tool_call(&choice.message.tool_calls[i]));
        i = i + 1;
    }
    let finish_reason = map_finish_reason(choice.finish_reason.as_str());
    let usage = match usage {
        Some(u) => map_usage(u),
        None => Usage::zero(),
    };
    Step {
        text: copy_opt(&choice.message.content),
        tool_calls,
        finish_reason,
        usage,
        meta: Meta::identified(Some(id), Some(model)),
    }
}

/// Turns a chat completion for a structured-output request into a
/// [`StructuredResponse`], from its first choice. A refusal is an
/// [`Error::Provider`] of kind `"refusal"`; missing content or content that is
/// not valid JSON is an [`Error::StructuredDecode`].
pub fn parse_structured_response(response: ChatResponse, provider_name: &str) -> (r: Result<
    StructuredResponse,
    Error,
>)
    requires
        response.choices@.len() > 0,
    ensures
        response.choices@[0].message.refusal matches Some(refusal) ==> (r matches Err(
            Error::Provider { provider, status, kind: Some(kind), message },
        ) && provider@ == provider_name@ && status == 0 && kind@ == "refusal"@ && message
            == refusal),
        response.choices@[0].message.refusal is None ==> match response.choices@[0].message.content {
            None => r matches Err(Error::StructuredDecode { provider, message }) && provider@
                == provider_name@ && message@ == "response contained no content"@,
            Some(c) => match parsed_json(c@) {
                Err(e) => r matches Err(Error::StructuredDecode { provider, message }) && provider@
                    == provider_name@ && message@ == e,
                Ok(t) => r matches Ok(resp) && resp.data.tree() == t && resp.finish_reason
                    == finish_reason_of(response.choices@[0].finish_reason@) && resp.usage
                    == opt_usage_of(response.usage) && meta_of(resp.meta, response.id, response.model),
            },
        },
{
    let ChatResponse { id, model, choices, usage } = response;
    let choice = &choices[0];
    if let Some(refusal) = &choice.message.refusal {
        return Err(
            Error::Provider {
                provider: owned(provider_name),
                status: 0,
                kind: Some(owned("refusal")),
                message: refusal.clone(),
            },
        );
    }
    let content = match &choice.message.content {
        Some(c) => c,
        None => {
            return Err(
                Error::StructuredDecode {
                    provider: owned(provider_name),
                    message: owned("response contained no content"),
                },
            );
        },
    };
    let data = match parse_json_text(content.as_str()) {
        Ok(v) => v,
        Err(e) => {
            return Err(Error::StructuredDecode { provider: owned(provider_name), message: e });
        },
    };
    let usage = match usage {
        Some(u) => map_usage(u),
        None => Usage::zero(),
    };
    Ok(
        StructuredResponse {
            data,
            finish_reason: map_finish_reason(choice.finish_reason.as_str()),
            usage,
            meta: Meta::identified(Some(id), Some(model)),
        },
    )
}

} // verus!
