//! Translates between this library's provider-agnostic types and Gemini's
//! `generateContent` wire format.
//!
//! There is no per-message system role (system prompts go to a top-level
//! `systemInstruction`), assistant turns use the role `"model"`, and tool calls
//! and results are ordinary parts of a turn. Gemini has no call ids: a
//! `functionResponse` is matched to its call by name, so [`parse_response`]
//! numbers the calls of a reply (`call_0`, `call_1`, ...) for this library's
//! own bookkeeping only.

use vstd::prelude::*;

use crate::error::Error;
use crate::json::{field_trees, parse_json_text, parsed_json, string_views, trees, JsonTree, JsonValue};
use crate::providers::{
    decimal, decimal_text, join_strings, join_with, media_mime, mime_or, renders, lemma_renders_push,
};
use crate::schema::{object_schema_json, owned, schema_json, Schema};
use crate::structured::{StructuredRequest, StructuredResponse};
use crate::text::{Step, TextRequest, ToolChoice, ToolDefinition};
use crate::value_objects::{
    FinishReason, Media, MediaData, MediaPart, Message, Meta, ToolCall, ToolOutcome, Usage,
};

use super::wire::{
    Candidate, Content, FileDataPart, FunctionCallPart, FunctionCallingConfig, FunctionDeclaration,
    FunctionResponsePart, GenerateContentRequest, GenerateContentResponse, GenerationConfig,
    InlineDataPart, Part, SystemInstruction, ToolConfig, ToolDeclaration, UsageMetadata,
};

verus! {

/// Whether `p` is the part for a piece of media: `fileData` for a URL,
/// `inlineData` for base64 bytes, with the media's MIME type or `default`.
pub open spec fn media_part_of(m: Media, default: Seq<char>, p: Part) -> bool {
    match m.data {
        MediaData::Url(u) => p matches Part::FileData { file_data } && file_data.mime_type@
            == mime_or(m, default) && file_data.file_uri@ == u@,
        MediaData::Base64(d) => p matches Part::InlineData { inline_data }
            && inline_data.mime_type@ == mime_or(m, default) && inline_data.data@ == d@,
    }
}

/// Whether `p` is the part for one part of a user message: text stays text,
/// and every kind of media becomes the same media part, told apart by MIME
/// type (defaults `image/png`, `application/pdf`, `audio/mpeg`, `video/mp4`).
pub open spec fn user_part_of(mp: MediaPart, p: Part) -> bool {
    match mp {
        MediaPart::Text(t) => p matches Part::Text { text } && text@ == t@,
        MediaPart::Image(m) => media_part_of(m, "image/png"@, p),
        MediaPart::Document(m) => media_part_of(m, "application/pdf"@, p),
        MediaPart::Audio(m) => media_part_of(m, "audio/mpeg"@, p),
        MediaPart::Video(m) => media_part_of(m, "video/mp4"@, p),
    }
}

/// The `response` sent back for a tool's outcome: `{"content": ...}` for an
/// output, `{"error": ...}` for an error.
pub open spec fn outcome_response(o: ToolOutcome) -> JsonTree {
    match o {
        ToolOutcome::Output(out) => JsonTree::Object(seq![("content"@, JsonTree::Str(out.content@))]),
        ToolOutcome::Error(m) => JsonTree::Object(seq![("error"@, JsonTree::Str(m@))]),
    }
}

/// Whether `c` is the turn a message renders as. A system message mid
/// conversation becomes a user turn; an assistant message becomes a `model`
/// turn with its text (if any) then one `functionCall` per tool call; a
/// tool-result message becomes a user turn with one `functionResponse` per
/// result, named by the tool.
pub open spec fn content_of(m: Message, c: Content) -> bool {
    match m {
        Message::System(s) => c.role@ == "user"@ && c.parts@.len() == 1 && (c.parts@[0] matches Part::Text {
            text,
        } && text@ == s.content@),
        Message::User(u) => c.role@ == "user"@ && c.parts@.len() == u.content@.len() && forall|
            i: int,
        |
            0 <= i < c.parts@.len() ==> user_part_of(u.content@[i], #[trigger] c.parts@[i]),
        Message::Assistant(a) => {
            let t = if a.content is Some {
                1int
            } else {
                0int
            };
            &&& c.role@ == "model"@
            &&& c.parts@.len() == t + a.tool_calls@.len()
            &&& a.content matches Some(x) ==> (c.parts@[0] matches Part::Text { text } && text
                == x)
            &&& forall|i: int|
                0 <= i < a.tool_calls@.len() ==> (#[trigger] c.parts@[t + i] matches Part::FunctionCall {
                    function_call,
                } && function_call.name@ == a.tool_calls@[i].name@ && function_call.args.tree()
                    == a.tool_calls@[i].arguments.tree())
        },
        Message::ToolResult(t) => c.role@ == "user"@ && c.parts@.len() == t.tool_results@.len()
            && forall|i: int|
            0 <= i < c.parts@.len() ==> (#[trigger] c.parts@[i] matches Part::FunctionResponse {
                function_response,
            } && function_response.name@ == t.tool_results@[i].tool_name@
                && function_response.response.tree() == outcome_response(
                t.tool_results@[i].result,
            )),
    }
}

/// Whether `out` holds one turn per message of `msgs`, each its rendering.
pub open spec fn renders_contents(msgs: Seq<Message>, out: Seq<Content>) -> bool {
    renders(msgs, out, |m: Message| 1nat, |m: Message, s: Seq<Content>| s.len() == 1 && content_of(m, s[0]))
}

/// The turns of a conversation, one per message.
fn build_contents(conversation: &Vec<Message>) -> (r: Vec<Content>)
    ensures
        renders_contents(conversation@, r@),
{
    let mut contents: Vec<Content> = Vec::new();
    let mut k: usize = 0;
    assert(conversation@.subrange(0, 0) =~= Seq::<Message>::empty());
    while k < conversation.len()
        invariant
            k <= conversation@.len(),
            renders_contents(conversation@.subrange(0, k as int), contents@),
        decreases conversation@.len() - k,
    {
        let ghost before = contents@;
        push_message(&mut contents, &conversation[k]);
        proof {
            lemma_renders_push(
                conversation@.subrange(0, k as int),
                before,
                conversation@[k as int],
                seq![contents@.last()],
                |m: Message| 1nat,
                |m: Message, s: Seq<Content>| s.len() == 1 && content_of(m, s[0]),
            );
            assert(conversation@.subrange(0, k as int).push(conversation@[k as int])
                =~= conversation@.subrange(0, k + 1));
            assert(before + seq![contents@.last()] =~= contents@);
        }
        k = k + 1;
    }
    assert(conversation@.subrange(0, conversation@.len() as int) =~= conversation@);
    contents
}

/// Appends the turn `message` renders as.
pub fn push_message(contents: &mut Vec<Content>, message: &Message)
    ensures
        final(contents)@ == old(contents)@.push(final(contents)@.last()),
        content_of(*message, final(contents)@.last()),
{
    match message {
        Message::System(system) => {
            let mut parts: Vec<Part> = Vec::new();
            parts.push(Part::Text { text: system.content.clone() });
            contents.push(Content { role: owned("user"), parts });
        },
        Message::User(user) => {
            let mut parts: Vec<Part> = Vec::new();
            let mut i: usize = 0;
            while i < user.content.len()
                invariant
                    i <= user.content@.len(),
                    parts@.len() == i,
                    forall|j: int| 0 <= j < i ==> user_part_of(user.content@[j], #[trigger] parts@[j]),
                decreases user.content@.len() - i,
            {
                let part = match &user.content[i] {
                    MediaPart::Text(text) => Part::Text { text: text.clone() },
                    MediaPart::Image(media) => to_media_part(media, "image/png"),
                    MediaPart::Document(media) => to_media_part(media, "application/pdf"),
                    MediaPart::Audio(media) => to_media_part(media, "audio/mpeg"),
                    MediaPart::Video(media) => to_media_part(media, "video/mp4"),
                };
                parts.push(part);
                i = i + 1;
            }
            contents.push(Content { role: owned("user"), parts });
        },
        Message::Assistant(assistant) => {
            let mut parts: Vec<Part> = Vec::new();
            if let Some(text) = &assistant.content {
                parts.push(Part::Text { text: text.clone() });
            }
            let t = parts.len();
            let mut i: usize = 0;
            while i < assistant.tool_calls.len()
                invariant
                    i <= assistant.tool_calls@.len(),
                    t == (if assistant.content is Some { 1int } else { 0int }),
                    parts@.len() == t + i,
                    assistant.content matches Some(x) ==> (parts@[0] matches Part::Text { text }
                        && text == x),
                    forall|j: int|
                        0 <= j < i ==> (#[trigger] parts@[t + j] matches Part::FunctionCall {
                            function_call,
                        } && function_call.name@ == assistant.tool_calls@[j].name@
                            && function_call.args.tree() == assistant.tool_calls@[j].arguments.tree()),
                decreases assistant.tool_calls@.len() - i,
            {
                let call = &assistant.tool_calls[i];
                parts.push(
                    Part::FunctionCall {
                        function_call: FunctionCallPart {
                            name: call.name.clone(),
                            args: call.arguments.copy(),
                        },
                    },
                );
                i = i + 1;
            }
            contents.push(Content { role: owned("model"), parts });
        },
        Message::ToolResult(tool_result) => {
            let mut parts: Vec<Part> = Vec::new();
            let mut i: usize = 0;
            while i < tool_result.tool_results.len()
                invariant
                    i <= tool_result.tool_results@.len(),
                    parts@.len() == i,
                    forall|j: int|
                        0 <= j < i ==> (#[trigger] parts@[j] matches Part::FunctionResponse {
                            function_response,
                        } && function_response.name@ == tool_result.tool_results@[j].tool_name@
                            && function_response.response.tree() == outcome_response(
                            tool_result.tool_results@[j].result,
                        )),
                decreases tool_result.tool_results@.len() - i,
            {
                let result = &tool_result.tool_results[i];
                let response = match &result.result {
                    ToolOutcome::Output(output) => JsonValue::single_field(
                        "content",
                        JsonValue::Str(output.content.clone()),
                    ),
                    ToolOutcome::Error(message) => JsonValue::single_field(
                        "error",
                        JsonValue::Str(message.clone()),
                    ),
                };
                parts.push(
                    Part::FunctionResponse {
                        function_response: FunctionResponsePart {
                            name: result.tool_name.clone(),
                            response,
                        },
                    },
                );
                i = i + 1;
            }
            contents.push(Content { role: owned("user"), parts });
        },
    }
}

/// The part for a piece of media, with `default` as its MIME type when it has
/// none (Gemini requires one).
pub fn to_media_part(media: &Media, default: &str) -> (r: Part)
    ensures
        media_part_of(*media, default@, r),
{
    let mime_type = media_mime(media, default);
    match &media.data {
        MediaData::Url(uri) => Part::FileData {
            file_data: FileDataPart { mime_type, file_uri: uri.clone() },
        },
        MediaData::Base64(data) => Part::InlineData {
            inline_data: InlineDataPart { mime_type, data: data.clone() },
        },
    }
}

/// Whether `s` is the system instruction for `prompts`: none when there are
/// no prompts, otherwise one text part holding them joined by blank lines.
pub open spec fn system_instruction_of(prompts: Seq<String>, s: Option<SystemInstruction>) -> bool {
    if prompts.len() == 0 {
        s is None
    } else {
        s matches Some(si) && si.parts@.len() == 1 && (si.parts@[0] matches Part::Text { text }
            && text@ == join_with(string_views(prompts), "\n\n"@))
    }
}

/// The system instruction for the system prompts.
pub fn build_system_instruction(system_prompts: &Vec<String>) -> (r: Option<SystemInstruction>)
    ensures
        system_instruction_of(system_prompts@, r),
{
    if system_prompts.len() == 0 {
        None
    } else {
        let mut parts: Vec<Part> = Vec::new();
        parts.push(Part::Text { text: join_strings(system_prompts, "\n\n") });
        Some(SystemInstruction { parts })
    }
}

/// The JSON of one declared function.
pub open spec fn declaration_tree(d: ToolDefinition) -> JsonTree {
    JsonTree::Object(
        seq![
            ("name"@, JsonTree::Str(d.name@)),
            ("description"@, JsonTree::Str(d.description@)),
            ("parametersJsonSchema"@, schema_json(Schema::Object(d.parameters))),
        ],
    )
}

/// The `{"functionDeclarations": [...]}` entry declaring `tools`.
pub open spec fn declarations_tree(tools: Seq<ToolDefinition>) -> JsonTree {
    JsonTree::Object(
        seq![
            (
                "functionDeclarations"@,
                JsonTree::Array(Seq::new(tools.len(), |i: int| declaration_tree(tools[i]))),
            ),
        ],
    )
}

/// The declaration of one tool.
pub fn to_wire_tool(tool: &ToolDefinition) -> (r: FunctionDeclaration)
    ensures
        r.name@ == tool.name@,
        r.description@ == tool.description@,
        r.parameters_json_schema.tree() == schema_json(Schema::Object(tool.parameters)),
{
    FunctionDeclaration {
        name: tool.name.clone(),
        description: tool.description.clone(),
        parameters_json_schema: object_schema_json(&tool.parameters),
    }
}

/// The JSON of one function declaration.
fn declaration_json(d: FunctionDeclaration) -> (r: JsonValue)
    ensures
        r.tree() == JsonTree::Object(
            seq![
                ("name"@, JsonTree::Str(d.name@)),
                ("description"@, JsonTree::Str(d.description@)),
                ("parametersJsonSchema"@, d.parameters_json_schema.tree()),
            ],
        ),
{
    let ghost t = d.parameters_json_schema.tree();
    let ghost n = d.name@;
    let ghost ds = d.description@;
    let FunctionDeclaration { name, description, parameters_json_schema } = d;
    let mut fields: Vec<(String, JsonValue)> = Vec::new();
    fields.push((owned("name"), JsonValue::Str(name)));
    fields.push((owned("description"), JsonValue::Str(description)));
    fields.push((owned("parametersJsonSchema"), parameters_json_schema));
    let r = JsonValue::object(fields);
    assert(field_trees(fields@) =~= seq![
        ("name"@, JsonTree::Str(n)),
        ("description"@, JsonTree::Str(ds)),
        ("parametersJsonSchema"@, t),
    ]);
    r
}

impl ToolDeclaration {
    /// The JSON this declaration is sent as: `{"functionDeclarations": [...]}`.
    pub fn to_json(self) -> (r: JsonValue)
        ensures
            r.tree() == JsonTree::Object(
                seq![
                    (
                        "functionDeclarations"@,
                        JsonTree::Array(
                            Seq::new(
                                self.function_declarations@.len(),
                                |i: int|
                                    JsonTree::Object(
                                        seq![
                                            ("name"@, JsonTree::Str(self.function_declarations@[i].name@)),
                                            (
                                                "description"@,
                                                JsonTree::Str(self.function_declarations@[i].description@),
                                            ),
                                            (
                                                "parametersJsonSchema"@,
                                                self.function_declarations@[i].parameters_json_schema.tree(),
                                            ),
                                        ],
                                    ),
                            ),
                        ),
                    ),
                ],
            ),
    {
        let ghost decls = self.function_declarations@;
        let mut items: Vec<JsonValue> = Vec::new();
        let mut rest = self.function_declarations;
        let mut i: usize = 0;
        let n = rest.len();
        while i < n
            invariant
                n == decls.len(),
                i <= n,
                rest@ == decls.subrange(i as int, n as int),
                items@.len() == i,
                forall|j: int|
                    0 <= j < i ==> #[trigger] items@[j].tree() == JsonTree::Object(
                        seq![
                            ("name"@, JsonTree::Str(decls[j].name@)),
                            ("description"@, JsonTree::Str(decls[j].description@)),
                            ("parametersJsonSchema"@, decls[j].parameters_json_schema.tree()),
                        ],
                    ),
            decreases n - i,
        {
            let d = rest.remove(0);
            assert(d == decls[i as int]);
            items.push(declaration_json(d));
            i = i + 1;
            assert(rest@ =~= decls.subrange(i as int, n as int));
        }
        let arr = JsonValue::array(items);
        let r = JsonValue::single_field("functionDeclarations", arr);
        proof {
            if let JsonTree::Array(a) = arr.tree() {
                assert(a =~= Seq::new(
                    decls.len(),
                    |i: int|
                        JsonTree::Object(
                            seq![
                                ("name"@, JsonTree::Str(decls[i].name@)),
                                ("description"@, JsonTree::Str(decls[i].description@)),
                                ("parametersJsonSchema"@, decls[i].parameters_json_schema.tree()),
                            ],
                        ),
                ));
            }
        }
        r
    }
}

/// The `tools` array of a request: this library's tools, when there are any,
/// as one `functionDeclarations` entry, followed by the provider-native tools
/// as they are.
pub fn build_tools(tools: &Vec<ToolDefinition>, provider_tools: &Vec<JsonValue>) -> (r: Vec<
    JsonValue,
>)
    ensures
        tools@.len() == 0 ==> trees(r@) == trees(provider_tools@),
        tools@.len() > 0 ==> trees(r@) == seq![declarations_tree(tools@)] + trees(provider_tools@),
{
    let mut wire_tools: Vec<JsonValue> = Vec::new();
    if tools.len() > 0 {
        let mut decls: Vec<FunctionDeclaration> = Vec::new();
        let mut i: usize = 0;
        while i < tools.len()
            invariant
                i <= tools@.len(),
                decls@.len() == i,
                forall|j: int|
                    0 <= j < i ==> (#[trigger] decls@[j]).name@ == tools@[j].name@
                        && decls@[j].description@ == tools@[j].description@
                        && decls@[j].parameters_json_schema.tree() == schema_json(
                        Schema::Object(tools@[j].parameters),
                    ),
            decreases tools@.len() - i,
        {
            decls.push(to_wire_tool(&tools[i]));
            i = i + 1;
        }
        let v = ToolDeclaration { function_declarations: decls }.to_json();
        proof {
            if let JsonTree::Object(f) = v.tree() {
                if let JsonTree::Object(g) = declarations_tree(tools@) {
                    assert(f[0].1 == g[0].1) by {
                        if let JsonTree::Array(fa) = f[0].1 {
                            if let JsonTree::Array(ga) = g[0].1 {
                                assert(fa =~= ga);
                            }
                        }
                    }
                    assert(f =~= g);
                }
            }
        }
        wire_tools.push(v);
    }
    let ghost head = trees(wire_tools@);
    let mut i: usize = 0;
    while i < provider_tools.len()
        invariant
            i <= provider_tools@.len(),
            head.len() <= 1,
            trees(wire_tools@) == head + trees(provider_tools@.subrange(0, i as int)),
            tools@.len() == 0 ==> head.len() == 0,
            tools@.len() > 0 ==> head == seq![declarations_tree(tools@)],
        decreases provider_tools@.len() - i,
    {
        let ghost before = wire_tools@;
        wire_tools.push(provider_tools[i].copy());
        proof {
            assert(trees(wire_tools@) =~= trees(before).push(provider_tools@[i as int].tree()));
            assert(trees(provider_tools@.subrange(0, i + 1)) =~= trees(
                provider_tools@.subrange(0, i as int),
            ).push(provider_tools@[i as int].tree()));
        }
        i = i + 1;
    }
    assert(provider_tools@.subrange(0, provider_tools@.len() as int) =~= provider_tools@);
    assert(head + trees(provider_tools@) == trees(wire_tools@));
    assert(tools@.len() == 0 ==> head + trees(provider_tools@) =~= trees(provider_tools@));
    wire_tools
}

/// Whether `c` is the tool config for `choice`: none when the request has no
/// tools of either kind; otherwise mode `AUTO`, `NONE` or `ANY`, and for a
/// specific tool mode `ANY` restricted to that tool's name.
pub open spec fn tool_config_of(choice: ToolChoice, no_tools: bool, c: Option<ToolConfig>) -> bool {
    if no_tools {
        c is None
    } else {
        c matches Some(tc) && match choice {
            ToolChoice::Auto => tc.function_calling_config.mode@ == "AUTO"@
                && tc.function_calling_config.allowed_function_names is None,
            ToolChoice::NoTool => tc.function_calling_config.mode@ == "NONE"@
                && tc.function_calling_config.allowed_function_names is None,
            ToolChoice::Any => tc.function_calling_config.mode@ == "ANY"@
                && tc.function_calling_config.allowed_function_names is None,
            ToolChoice::Tool(name) => tc.function_calling_config.mode@ == "ANY"@
                && (tc.function_calling_config.allowed_function_names matches Some(names)
                && names@.len() == 1 && names@[0]@ == name@),
        }
    }
}

/// What a request with tools tells the model about calling them. `Any`
/// requires a call of some function: the same mode as forcing one specific
/// tool, but with no restriction to a name, and a different mode from `Auto`
/// (the model chooses) and from `NoTool` (no call). The three modes are
/// `"AUTO"`, `"ANY"` and `"NONE"`.
pub proof fn law_any_requires_a_call(
    auto: Option<ToolConfig>,
    none: Option<ToolConfig>,
    any: Option<ToolConfig>,
    forced: Option<ToolConfig>,
    name: String,
)
    requires
        tool_config_of(ToolChoice::Auto, false, auto),
        tool_config_of(ToolChoice::NoTool, false, none),
        tool_config_of(ToolChoice::Any, false, any),
        tool_config_of(ToolChoice::Tool(name), false, forced),
    ensures
        auto matches Some(a) && none matches Some(n) && any matches Some(y) && forced matches Some(f) && {
            let (a, n, y, f) = (
                a.function_calling_config,
                n.function_calling_config,
                y.function_calling_config,
                f.function_calling_config,
            );
            &&& y.mode@ == f.mode@
            &&& y.mode@ != a.mode@
            &&& y.mode@ != n.mode@
            &&& a.mode@ != n.mode@
            &&& a.mode@ == "AUTO"@ && n.mode@ == "NONE"@ && y.mode@ == "ANY"@
            &&& y.allowed_function_names is None
            &&& a.allowed_function_names is None
            &&& f.allowed_function_names matches Some(names) && names@.len() == 1 && names@[0]@
                == name@
        },
{
    reveal_strlit("AUTO");
    reveal_strlit("NONE");
    reveal_strlit("ANY");
    assert("AUTO"@.len() != "ANY"@.len());
    assert("NONE"@.len() != "ANY"@.len());
    assert("AUTO"@[0] != "NONE"@[0]);
}

/// The tool config for `choice`.
pub fn to_wire_tool_config(choice: &ToolChoice, no_tools: bool) -> (r: Option<ToolConfig>)
    ensures
        tool_config_of(*choice, no_tools, r),
{
    if no_tools {
        return None;
    }
    let (mode, allowed_function_names) = match choice {
        ToolChoice::Auto => (owned("AUTO"), None),
        ToolChoice::NoTool => (owned("NONE"), None),
        ToolChoice::Any => (owned("ANY"), None),
        ToolChoice::Tool(name) => {
            let mut names: Vec<String> = Vec::new();
            names.push(name.clone());
            (owned("ANY"), Some(names))
        },
    };
    Some(ToolConfig { function_calling_config: FunctionCallingConfig { mode, allowed_function_names } })
}

/// Builds the `generateContent` request for a text request.
pub fn build_request(request: &TextRequest) -> (r: GenerateContentRequest)
    ensures
        renders_contents(request.messages@, r.contents@),
        system_instruction_of(request.system_prompts@, r.system_instruction),
        r.generation_config matches Some(g) && g.max_output_tokens == request.max_tokens
            && g.temperature == request.temperature && g.top_p == request.top_p
            && g.response_mime_type is None && g.response_json_schema is None
            && g.stop_sequences@.len() == 0,
        request.tools@.len() == 0 ==> trees(r.tools@) == trees(request.provider_tools@),
        request.tools@.len() > 0 ==> trees(r.tools@) == seq![declarations_tree(request.tools@)]
            + trees(request.provider_tools@),
        tool_config_of(
            request.tool_choice,
            request.tools@.len() == 0 && request.provider_tools@.len() == 0,
            r.tool_config,
        ),
{
    GenerateContentRequest {
        contents: build_contents(&request.messages),
        system_instruction: build_system_instruction(&request.system_prompts),
        generation_config: Some(
            GenerationConfig {
                max_output_tokens: request.max_tokens,
                temperature: request.temperature,
                top_p: request.top_p,
                response_mime_type: None,
                response_json_schema: None,
                stop_sequences: Vec::new(),
            },
        ),
        tools: build_tools(&request.tools, &request.provider_tools),
        tool_config: to_wire_tool_config(
            &request.tool_choice,
            request.tools.len() == 0 && request.provider_tools.len() == 0,
        ),
    }
}

/// Builds the `generateContent` request for a structured-output call, using
/// Gemini's native `responseJsonSchema`: the API enforces the schema, so no
/// tool is involved.
pub fn build_structured_request(request: &StructuredRequest) -> (r: GenerateContentRequest)
    ensures
        renders_contents(request.messages@, r.contents@),
        system_instruction_of(request.system_prompts@, r.system_instruction),
        r.generation_config matches Some(g) && g.max_output_tokens == request.max_tokens
            && g.temperature == request.temperature && g.top_p == request.top_p
            && (g.response_mime_type matches Some(mt) && mt@ == "application/json"@)
            && (g.response_json_schema matches Some(js) && js.tree() == schema_json(
            Schema::Object(request.schema),
        )) && g.stop_sequences@.len() == 0,
        r.tools@.len() == 0,
        r.tool_config is None,
{
    GenerateContentRequest {
        contents: build_contents(&request.messages),
        system_instruction: build_system_instruction(&request.system_prompts),
        generation_config: Some(
            GenerationConfig {
                max_output_tokens: request.max_tokens,
                temperature: request.temperature,
                top_p: request.top_p,
                response_mime_type: Some(owned("application/json")),
                response_json_schema: Some(object_schema_json(&request.schema)),
                stop_sequences: Vec::new(),
            },
        ),
        tools: Vec::new(),
        tool_config: None,
    }
}

/// What a candidate's `finishReason` means (absent means `Stop`).
pub open spec fn finish_reason_of(s: Option<String>) -> FinishReason {
    match s {
        None => FinishReason::Stop,
        Some(x) => if x@ == "STOP"@ {
            FinishReason::Stop
        } else if x@ == "MAX_TOKENS"@ {
            FinishReason::Length
        } else if x@ == "SAFETY"@ || x@ == "RECITATION"@ || x@ == "BLOCKLIST"@ || x@
            == "PROHIBITED_CONTENT"@ {
            FinishReason::ContentFilter
        } else {
            FinishReason::Other
        },
    }
}

/// Maps a candidate's `finishReason` to a [`FinishReason`]. Gemini reports a
/// tool-calling turn as `STOP`, so this is only used when a reply made no
/// tool calls.
pub fn map_finish_reason(finish_reason: &Option<String>) -> (r: FinishReason)
    ensures
        r == finish_reason_of(*finish_reason),
{
    match finish_reason {
        None => FinishReason::Stop,
        Some(x) => {
            let s = x.as_str();
            if crate::json::same_text(s, "STOP") {
                FinishReason::Stop
            } else if crate::json::same_text(s, "MAX_TOKENS") {
                FinishReason::Length
            } else if crate::json::same_text(s, "SAFETY") || crate::json::same_text(s, "RECITATION")
                || crate::json::same_text(s, "BLOCKLIST") || crate::json::same_text(
                s,
                "PROHIBITED_CONTENT",
            ) {
                FinishReason::ContentFilter
            } else {
                FinishReason::Other
            }
        },
    }
}

/// The [`Usage`] a `usageMetadata` object stands for; cached content tokens
/// count as cache reads.
pub open spec fn usage_of(u: UsageMetadata) -> Usage {
    Usage {
        prompt_tokens: u.prompt_token_count,
        completion_tokens: u.candidates_token_count,
        cache_write_tokens: None,
        cache_read_tokens: u.cached_content_token_count,
        thought_tokens: None,
    }
}

/// The usage of a response: its report, or zero when it has none.
pub open spec fn opt_usage_of(u: Option<UsageMetadata>) -> Usage {
    match u {
        Some(x) => usage_of(x),
        None => Usage::spec_zero(),
    }
}

/// Maps a `usageMetadata` object to a [`Usage`].
pub fn map_usage(usage: UsageMetadata) -> (r: Usage)
    ensures
        r == usage_of(usage),
{
    Usage {
        prompt_tokens: usage.prompt_token_count,
        completion_tokens: usage.candidates_token_count,
        cache_write_tokens: None,
        cache_read_tokens: usage.cached_content_token_count,
        thought_tokens: None,
    }
}

/// Why a response has no candidate: the block reason Gemini gave, or `"no
/// candidates returned"`.
pub open spec fn no_candidate_reason(response: GenerateContentResponse) -> Seq<char> {
    match response.prompt_feedback {
        Some(f) => match f.block_reason {
            Some(b) => b@,
            None => "no candidates returned"@,
        },
        None => "no candidates returned"@,
    }
}

/// The reason a response has no candidate.
fn no_candidate_message(response: &GenerateContentResponse) -> (r: String)
    ensures
        r@ == no_candidate_reason(*response),
{
    match &response.prompt_feedback {
        Some(f) => match &f.block_reason {
            Some(b) => b.clone(),
            None => owned("no candidates returned"),
        },
        None => owned("no candidates returned"),
    }
}

/// The text of the text parts of `parts`, concatenated in order.
pub open spec fn parts_text(parts: Seq<Part>) -> Seq<char>
    decreases parts.len(),
{
    if parts.len() == 0 {
        Seq::empty()
    } else {
        match parts.last() {
            Part::Text { text } => parts_text(parts.drop_last()) + text@,
            _ => parts_text(parts.drop_last()),
        }
    }
}

/// The function calls among `parts`, in order.
pub open spec fn parts_calls(parts: Seq<Part>) -> Seq<FunctionCallPart>
    decreases parts.len(),
{
    if parts.len() == 0 {
        Seq::empty()
    } else {
        match parts.last() {
            Part::FunctionCall { function_call } => parts_calls(parts.drop_last()).push(function_call),
            _ => parts_calls(parts.drop_last()),
        }
    }
}

/// The id this library gives the `k`-th call of a reply: `call_k`.
pub open spec fn call_id_text(k: nat) -> Seq<char> {
    "call_"@ + decimal(k)
}

/// The id of the `k`-th call of a reply.
pub fn call_id(k: usize) -> (r: String)
    ensures
        r@ == call_id_text(k as nat),
{
    let mut s = owned("call_");
    let digits = decimal_text(k as u64);
    s.append(digits.as_str());
    s
}

/// Whether `calls` are the tool calls the function calls `fcs` stand for,
/// numbered from 0.
pub open spec fn calls_of(calls: Seq<ToolCall>, fcs: Seq<FunctionCallPart>) -> bool {
    &&& calls.len() == fcs.len()
    &&& forall|i: int|
        0 <= i < calls.len() ==> (#[trigger] calls[i]).id@ == call_id_text(i as nat) && calls[i].name@
            == fcs[i].name@ && calls[i].arguments.tree() == fcs[i].args.tree()
}

/// The text of a reply, none when empty.
pub open spec fn reply_text(content: Option<Content>) -> Option<Seq<char>> {
    match content {
        Some(c) => if parts_text(c.parts@).len() > 0 {
            Some(parts_text(c.parts@))
        } else {
            None
        },
        None => None,
    }
}

/// The function calls of a reply.
pub open spec fn reply_calls(content: Option<Content>) -> Seq<FunctionCallPart> {
    match content {
        Some(c) => parts_calls(c.parts@),
        None => Seq::empty(),
    }
}

/// The text and tool calls of a candidate's content: its text parts
/// concatenated (none when empty), and its function calls numbered `call_0`,
/// `call_1`, ... in order.
pub fn read_parts(content: Option<Content>) -> (r: (Option<String>, Vec<ToolCall>))
    ensures
        match reply_text(content) {
            Some(t) => r.0 matches Some(x) && x@ == t,
            None => r.0 is None,
        },
        calls_of(r.1@, reply_calls(content)),
{
    let mut text = String::new();
    let mut tool_calls: Vec<ToolCall> = Vec::new();
    let ghost all = reply_calls(content);
    match content {
        Some(c) => {
            let ghost ps = c.parts@;
            let mut parts = c.parts;
            let n = parts.len();
            let mut i: usize = 0;
            while i < n
                invariant
                    n == ps.len(),
                    i <= n,
                    parts@ == ps.subrange(i as int, n as int),
                    text@ == parts_text(ps.subrange(0, i as int)),
                    calls_of(tool_calls@, parts_calls(ps.subrange(0, i as int))),
                    tool_calls@.len() <= i,
                decreases n - i,
            {
                let part = parts.remove(0);
                assert(part == ps[i as int]);
                proof {
                    assert(ps.subrange(0, i + 1).drop_last() =~= ps.subrange(0, i as int));
                }
                match part {
                    Part::Text { text: t } => {
                        text.append(t.as_str());
                    },
                    Part::FunctionCall { function_call } => {
                        let ghost fc = function_call;
                        let FunctionCallPart { name, args } = function_call;
                        let id = call_id(tool_calls.len());
                        tool_calls.push(ToolCall { id, name, arguments: args });
                        proof {
                            assert(parts_calls(ps.subrange(0, i + 1)) == parts_calls(
                                ps.subrange(0, i as int),
                            ).push(fc));
                        }
                    },
                    _ => {},
                }
                i = i + 1;
                proof {
                    assert(parts@ =~= ps.subrange(i as int, n as int));
                }
            }
            assert(ps.subrange(0, n as int) =~= ps);
        },
        None => {},
    }
    let t = if text.as_str().is_empty() {
        None
    } else {
        Some(text)
    };
    (t, tool_calls)
}

/// Turns a `generateContent` response into one round trip's [`Step`], from
/// its first candidate. A response with no candidate (most often a safety
/// block) is an [`Error::Provider`] of kind `"blocked"`. A reply with tool
/// calls finishes with `ToolCalls`, since Gemini reports such a turn as
/// `STOP`.
pub fn parse_response(response: GenerateContentResponse, provider_name: &str) -> (r: Result<
    Step,
    Error,
>)
    ensures
        response.candidates@.len() == 0 ==> (r matches Err(
            Error::Provider { provider, status, kind: Some(kind), message },
        ) && provider@ == provider_name@ && status == 0 && kind@ == "blocked"@ && message@
            == no_candidate_reason(response)),
        response.candidates@.len() > 0 ==> (r matches Ok(step) && {
            let cand = response.candidates@[0];
            &&& match reply_text(cand.content) {
                Some(t) => step.text matches Some(x) && x@ == t,
                None => step.text is None,
            }
            &&& calls_of(step.tool_calls@, reply_calls(cand.content))
            &&& step.finish_reason == if reply_calls(cand.content).len() == 0 {
                finish_reason_of(cand.finish_reason)
            } else {
                FinishReason::ToolCalls
            }
            &&& step.usage == opt_usage_of(response.usage_metadata)
            &&& step.meta.id == response.response_id
            &&& step.meta.model == response.model_version
            &&& step.meta.rate_limits@.len() == 0
        }),
{
    if response.candidates.len() == 0 {
        return Err(
            Error::Provider {
                provider: owned(provider_name),
                status: 0,
                kind: Some(owned("blocked")),
                message: no_candidate_message(&response),
            },
        );
    }
    let GenerateContentResponse { candidates, usage_metadata, model_version, response_id, .. } =
        response;
    let mut candidates = candidates;
    let Candidate { content, finish_reason } = candidates.remove(0);
    let (text, tool_calls) = read_parts(content);
    let finish_reason = if tool_calls.len() == 0 {
        map_finish_reason(&finish_reason)
    } else {
        FinishReason::ToolCalls
    };
    let usage = match usage_metadata {
        Some(u) => map_usage(u),
        None => Usage::zero(),
    };
    Ok(
        Step {
            text,
            tool_calls,
            finish_reason,
            usage,
            meta: Meta::identified(response_id, model_version),
        },
    )
}

/// Turns a `generateContent` response for a structured-output request into a
/// [`StructuredResponse`]: the reply text is the JSON data. No candidate, no
/// text, or text that is not valid JSON is an [`Error::StructuredDecode`].
pub fn parse_structured_response(response: GenerateContentResponse, provider_name: &str) -> (r:
    Result<StructuredResponse, Error>)
    ensures
        response.candidates@.len() == 0 ==> (r matches Err(Error::StructuredDecode { provider, message })
            && provider@ == provider_name@ && message@ == no_candidate_reason(response)),
        response.candidates@.len() > 0 ==> {
            let cand = response.candidates@[0];
            match reply_text(cand.content) {
                None => r matches Err(Error::StructuredDecode { provider, message }) && provider@
                    == provider_name@ && message@
                    == "response contained no text part with the structured output"@,
                Some(t) => match parsed_json(t) {
                    Err(e) => r matches Err(Error::StructuredDecode { provider, message })
                        && provider@ == provider_name@ && message@ == e,
                    Ok(data) => r matches Ok(resp) && resp.data.tree() == data && resp.finish_reason
                        == finish_reason_of(cand.finish_reason) && resp.usage == opt_usage_of(
                        response.usage_metadata,
                    ) && resp.meta.id == response.response_id && resp.meta.model
                        == response.model_version && resp.meta.rate_limits@.len() == 0,
                },
            }
        },
{
    if response.candidates.len() == 0 {
        return Err(
            Error::StructuredDecode {
                provider: owned(provider_name),
                message: no_candidate_message(&response),
            },
        );
    }
    let GenerateContentResponse { candidates, usage_metadata, model_version, response_id, .. } =
        response;
    let mut candidates = candidates;
    let Candidate { content, finish_reason } = candidates.remove(0);
    let finish_reason = map_finish_reason(&finish_reason);
    let (text, _) = read_parts(content);
    let text = match text {
        Some(t) => t,
        None => {
            return Err(
                Error::StructuredDecode {
                    provider: owned(provider_name),
                    message: owned("response contained no text part with the structured output"),
                },
            );
        },
    };
    let data = match parse_json_text(text.as_str()) {
        Ok(v) => v,
        Err(e) => {
            return Err(Error::StructuredDecode { provider: owned(provider_name), message: e });
        },
    };
    let usage = match usage_metadata {
        Some(u) => map_usage(u),
        None => Usage::zero(),
    };
    Ok(
        StructuredResponse {
            data,
            finish_reason,
            usage,
            meta: Meta::identified(response_id, model_version),
        },
    )
}

} // verus!
