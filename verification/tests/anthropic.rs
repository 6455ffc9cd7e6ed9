use llmprism::json::{json_to_text, parse_json_text, JsonValue};
use llmprism::providers::anthropic::maps::{
    build_request, build_structured_request, parse_response, parse_structured_response, push_message,
};
use llmprism::providers::anthropic::wire::{
    ContentBlock, MediaSource, MessagesResponse, MessagesUsage, SystemPrompt,
};
use llmprism::schema::ObjectSchema;
use llmprism::structured::StructuredRequest;
use llmprism::text::{TextRequest, ToolChoice};
use llmprism::value_objects::{FinishReason, Media, MediaData, MediaPart, Message, UserMessage};

fn usage() -> MessagesUsage {
    MessagesUsage {
        input_tokens: 10,
        output_tokens: 5,
        cache_creation_input_tokens: None,
        cache_read_input_tokens: None,
    }
}

#[test]
fn parse_response_ignores_unrecognized_content_blocks() {
    let response = MessagesResponse {
        id: "msg_1".to_string(),
        model: "haiku-3-5-20241022".to_string(),
        content: vec![
            ContentBlock::Other,
            ContentBlock::Text { text: "The answer is 4.".to_string() },
        ],
        stop_reason: Some("end_turn".to_string()),
        usage: usage(),
    };

    let step = parse_response(response);

    assert_eq!(step.text.as_deref(), Some("The answer is 4."));
    assert!(step.tool_calls.is_empty());
}

#[test]
fn push_message_maps_image_and_document_parts() {
    let user = UserMessage {
        content: vec![
            MediaPart::Text("What's in this file?".to_string()),
            MediaPart::Image(Media { mime_type: None, data: MediaData::Base64("aGVsbG8=".to_string()) }),
            MediaPart::Document(Media {
                mime_type: Some("application/pdf".to_string()),
                data: MediaData::Url("https://example.com/doc.pdf".to_string()),
            }),
            MediaPart::Audio(Media {
                mime_type: None,
                data: MediaData::Url("https://example.com/clip.mp3".to_string()),
            }),
        ],
    };

    let mut messages = Vec::new();
    push_message(&mut messages, &Message::User(user));

    assert_eq!(messages.len(), 1);
    let content = &messages[0].content;
    assert_eq!(content.len(), 3);

    assert!(matches!(content[0], ContentBlock::Text { .. }));
    assert!(matches!(
        &content[1],
        ContentBlock::Image { source: MediaSource::Base64 { media_type, .. } } if media_type == "image/png"
    ));
    assert!(matches!(
        &content[2],
        ContentBlock::Document { source: MediaSource::Url { url } } if url == "https://example.com/doc.pdf"
    ));
}

#[test]
fn tool_use_blocks_become_tool_calls_and_stop_reasons_map() {
    let response = MessagesResponse {
        id: "msg_2".to_string(),
        model: "haiku".to_string(),
        content: vec![
            ContentBlock::Text { text: "Let me check. ".to_string() },
            ContentBlock::ToolUse {
                id: "toolu_1".to_string(),
                name: "get_weather".to_string(),
                input: parse_json_text(r#"{"city": "Paris"}"#).unwrap(),
            },
            ContentBlock::Text { text: "One moment.".to_string() },
        ],
        stop_reason: Some("tool_use".to_string()),
        usage: MessagesUsage {
            input_tokens: 3,
            output_tokens: 4,
            cache_creation_input_tokens: Some(1),
            cache_read_input_tokens: Some(2),
        },
    };

    let step = parse_response(response);

    assert_eq!(step.text.as_deref(), Some("Let me check. One moment."));
    assert_eq!(step.tool_calls.len(), 1);
    assert_eq!(step.tool_calls[0].id, "toolu_1");
    assert_eq!(step.tool_calls[0].name, "get_weather");
    assert_eq!(json_to_text(&step.tool_calls[0].arguments), r#"{"city":"Paris"}"#);
    assert_eq!(step.finish_reason, FinishReason::ToolCalls);
    assert_eq!(step.usage.cache_write_tokens, Some(1));
    assert_eq!(step.usage.cache_read_tokens, Some(2));
    assert_eq!(step.meta.id.as_deref(), Some("msg_2"));
}

#[test]
fn anthropic_requests_default_max_tokens_and_join_system_prompts() {
    let mut request = TextRequest::new("haiku");
    request.system_prompts = vec!["Be brief.".to_string(), "Be kind.".to_string()];
    request.tool_choice = ToolChoice::NoTool;

    let wire = build_request(&request);

    assert_eq!(wire.max_tokens, 4096);
    assert!(matches!(&wire.system, Some(SystemPrompt::Text(t)) if t == "Be brief.\n\nBe kind."));
    assert!(wire.tool_choice.is_none());

    request.cache_system_prompt = true;
    request.max_tokens = Some(50);
    let wire = build_request(&request);
    assert_eq!(wire.max_tokens, 50);
    match &wire.system {
        Some(SystemPrompt::Blocks(blocks)) => {
            assert_eq!(blocks.len(), 1);
            assert_eq!(blocks[0].kind, "text");
            assert_eq!(blocks[0].cache_control.as_ref().map(|c| c.kind.as_str()), Some("ephemeral"));
        }
        _ => panic!("expected a cached system block"),
    }
}

#[test]
fn structured_requests_force_the_schema_tool() {
    let request = StructuredRequest::new("haiku", ObjectSchema::new("person"));

    let wire = build_structured_request(&request);

    assert_eq!(wire.tools.len(), 1);
    assert_eq!(wire.tools[0].name, "person");
    assert_eq!(wire.tools[0].description, "Structured output matching the requested schema.");
    let choice = wire.tool_choice.as_ref().unwrap();
    assert_eq!(json_to_text(choice), r#"{"name":"person","type":"tool"}"#);
}

#[test]
fn structured_reply_reads_the_first_tool_input() {
    let response = MessagesResponse {
        id: "m".to_string(),
        model: "haiku".to_string(),
        content: vec![
            ContentBlock::Text { text: "ignored".to_string() },
            ContentBlock::ToolUse { id: "a".to_string(), name: "person".to_string(), input: parse_json_text(r#"{"n": 1}"#).unwrap() },
            ContentBlock::ToolUse { id: "b".to_string(), name: "person".to_string(), input: parse_json_text(r#"{"n": 2}"#).unwrap() },
        ],
        stop_reason: Some("tool_use".to_string()),
        usage: usage(),
    };

    let parsed = parse_structured_response(response, "anthropic").unwrap();

    assert_eq!(json_to_text(&parsed.data), r#"{"n":1}"#);
    assert_eq!(parsed.finish_reason, FinishReason::Stop);
}

#[test]
fn structured_reply_without_a_tool_call_is_an_error() {
    let response = MessagesResponse {
        id: "m".to_string(),
        model: "haiku".to_string(),
        content: vec![ContentBlock::Text { text: "no".to_string() }],
        stop_reason: Some("max_tokens".to_string()),
        usage: usage(),
    };

    let err = parse_structured_response(response, "anthropic").unwrap_err();

    assert!(matches!(err, llmprism::error::Error::StructuredDecode { ref message, .. }
        if message == "response contained no tool_use block with the structured output"));
    let _ = JsonValue::Null;
}
