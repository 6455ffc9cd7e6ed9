use llmprism::error::Error;
use llmprism::json::{json_to_text, parse_json_text, JsonValue};
use llmprism::providers::openai::maps::{
    build_request, build_structured_request, map_finish_reason, parse_response,
    parse_structured_response, user_text,
};
use llmprism::providers::openai::wire::{
    ChatChoice, ChatMessage, ChatPromptTokensDetails, ChatResponse, ChatResponseMessage,
    ChatToolCall, ChatToolCallFunction, ChatUsage,
};
use llmprism::schema::ObjectSchema;
use llmprism::structured::StructuredRequest;
use llmprism::text::{TextRequest, ToolChoice, ToolDefinition};
use llmprism::value_objects::{
    AssistantMessage, FinishReason, Media, MediaData, MediaPart, Message, SystemMessage, ToolCall,
    ToolOutcome, ToolResult, ToolResultMessage, UserMessage,
};

#[test]
fn a_conversation_renders_in_order_with_system_prompts_first() {
    let mut request = TextRequest::new("gpt-4o-mini");
    request.system_prompts = vec!["Be brief.".to_string()];
    request.messages = vec![
        Message::User(UserMessage {
            content: vec![
                MediaPart::Text("line one".to_string()),
                MediaPart::Image(Media { mime_type: None, data: MediaData::Url("u".to_string()) }),
                MediaPart::Text("line two".to_string()),
            ],
        }),
        Message::Assistant(AssistantMessage {
            content: None,
            tool_calls: vec![ToolCall {
                id: "call_1".to_string(),
                name: "lookup".to_string(),
                arguments: parse_json_text(r#"{"q": "x"}"#).unwrap(),
            }],
        }),
        Message::ToolResult(ToolResultMessage {
            tool_results: vec![
                ToolResult { tool_call_id: "call_1".to_string(), tool_name: "lookup".to_string(), args: JsonValue::Null, result: ToolOutcome::Error("nope".to_string()) },
                ToolResult { tool_call_id: "call_2".to_string(), tool_name: "lookup".to_string(), args: JsonValue::Null, result: ToolOutcome::Error("again".to_string()) },
            ],
        }),
        Message::System(SystemMessage { content: "mid".to_string() }),
    ];
    request.tools = vec![ToolDefinition {
        name: "lookup".to_string(),
        description: "Looks things up".to_string(),
        parameters: ObjectSchema::new("parameters"),
        concurrent: false,
    }];
    request.tool_choice = ToolChoice::Any;

    let wire = build_request(&request);

    assert_eq!(wire.messages.len(), 6);
    assert!(matches!(&wire.messages[0], ChatMessage::System { content } if content == "Be brief."));
    assert!(matches!(&wire.messages[1], ChatMessage::User { content } if content == "line one\nline two"));
    match &wire.messages[2] {
        ChatMessage::Assistant { content: None, tool_calls } => {
            assert_eq!(tool_calls[0].kind, "function");
            assert_eq!(tool_calls[0].function.arguments, r#"{"q":"x"}"#);
        }
        other => panic!("unexpected {other:?}"),
    }
    assert!(matches!(&wire.messages[3], ChatMessage::Tool { tool_call_id, content } if tool_call_id == "call_1" && content == "nope"));
    assert!(matches!(&wire.messages[4], ChatMessage::Tool { tool_call_id, .. } if tool_call_id == "call_2"));
    assert!(matches!(&wire.messages[5], ChatMessage::System { content } if content == "mid"));
    assert_eq!(wire.tools.len(), 1);
    assert_eq!(json_to_text(wire.tool_choice.as_ref().unwrap()), "\"required\"");
}

#[test]
fn no_tool_choice_is_sent_without_tools() {
    let mut request = TextRequest::new("m");
    request.tool_choice = ToolChoice::Tool("x".to_string());
    assert!(build_request(&request).tool_choice.is_none());
}

#[test]
fn user_text_skips_media() {
    let user = UserMessage { content: vec![MediaPart::Audio(Media { mime_type: None, data: MediaData::Url("a".to_string()) })] };
    assert_eq!(user_text(&user), "");
}

fn response(content: Option<&str>, refusal: Option<&str>, calls: Vec<ChatToolCall>) -> ChatResponse {
    ChatResponse {
        id: "chatcmpl-9".to_string(),
        model: "gpt-4o-mini".to_string(),
        choices: vec![ChatChoice {
            message: ChatResponseMessage {
                content: content.map(|s| s.to_string()),
                tool_calls: calls,
                refusal: refusal.map(|s| s.to_string()),
            },
            finish_reason: "stop".to_string(),
        }],
        usage: Some(ChatUsage {
            prompt_tokens: 9,
            completion_tokens: 3,
            prompt_tokens_details: Some(ChatPromptTokensDetails { cached_tokens: Some(4) }),
        }),
    }
}

#[test]
fn a_completion_becomes_a_step() {
    let calls = vec![ChatToolCall {
        id: "c".to_string(),
        kind: "function".to_string(),
        function: ChatToolCallFunction { name: "f".to_string(), arguments: "not json".to_string() },
    }];
    let step = parse_response(response(Some("hi"), None, calls));
    assert_eq!(step.text.as_deref(), Some("hi"));
    assert!(matches!(step.tool_calls[0].arguments, JsonValue::Null));
    assert_eq!(step.usage.cache_read_tokens, Some(4));
    assert_eq!(step.meta.model.as_deref(), Some("gpt-4o-mini"));
    assert_eq!(step.finish_reason, FinishReason::Stop);
}

#[test]
fn finish_reasons_map() {
    assert_eq!(map_finish_reason("length"), FinishReason::Length);
    assert_eq!(map_finish_reason("tool_calls"), FinishReason::ToolCalls);
    assert_eq!(map_finish_reason("content_filter"), FinishReason::ContentFilter);
    assert_eq!(map_finish_reason("weird"), FinishReason::Other);
}

#[test]
fn structured_replies_decode_or_explain_why_not() {
    let ok = parse_structured_response(response(Some(r#"{"a": [1]}"#), None, vec![]), "openai").unwrap();
    assert_eq!(json_to_text(&ok.data), r#"{"a":[1]}"#);

    let refused = parse_structured_response(response(None, Some("I can't"), vec![]), "openai").unwrap_err();
    assert!(matches!(refused, Error::Provider { status: 0, ref kind, ref message, .. }
        if kind.as_deref() == Some("refusal") && message == "I can't"));

    let empty = parse_structured_response(response(None, None, vec![]), "openai").unwrap_err();
    assert!(matches!(empty, Error::StructuredDecode { ref message, .. } if message == "response contained no content"));

    let bad = parse_structured_response(response(Some("{"), None, vec![]), "openai").unwrap_err();
    assert!(matches!(bad, Error::StructuredDecode { .. }));
}

#[test]
fn structured_requests_use_the_json_schema_format() {
    let request = StructuredRequest::new("gpt-4o-mini", ObjectSchema::new("answer"));
    let wire = build_structured_request(&request);
    let format = json_to_text(wire.response_format.as_ref().unwrap());
    let expected = parse_json_text(r#"{"type": "json_schema", "json_schema": {"name": "answer", "strict": true,
        "schema": {"type": "object", "properties": {}, "required": [], "additionalProperties": false}}}"#).unwrap();
    assert_eq!(format, json_to_text(&expected));
    assert!(wire.tools.is_empty());
}
