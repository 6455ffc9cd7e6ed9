use llmprism::error::Error;
use llmprism::json::{json_to_text, parse_json_text};
use llmprism::providers::gemini::maps::{
    build_request, build_tools, call_id, parse_response, parse_structured_response, push_message,
};
use llmprism::providers::gemini::stream::GeminiStream;
use llmprism::providers::gemini::wire::{
    Candidate, Content, FunctionCallPart, GenerateContentResponse, Part, PromptFeedback,
};
use llmprism::stream_event::StreamEvent;
use llmprism::text::TextRequest;
use llmprism::value_objects::{FinishReason, Media, MediaData, MediaPart, Message, UserMessage};

#[test]
fn push_message_maps_every_media_kind_to_the_same_part_shape() {
    let user = UserMessage {
        content: vec![
            MediaPart::Text("What's this?".to_string()),
            MediaPart::Image(Media { mime_type: None, data: MediaData::Base64("aGVsbG8=".to_string()) }),
            MediaPart::Document(Media {
                mime_type: Some("application/pdf".to_string()),
                data: MediaData::Url("https://example.com/doc.pdf".to_string()),
            }),
            MediaPart::Audio(Media {
                mime_type: None,
                data: MediaData::Url("https://example.com/clip.mp3".to_string()),
            }),
            MediaPart::Video(Media { mime_type: None, data: MediaData::Base64("d29ybGQ=".to_string()) }),
        ],
    };

    let mut contents = Vec::new();
    push_message(&mut contents, &Message::User(user));

    assert_eq!(contents.len(), 1);
    let parts = &contents[0].parts;
    assert_eq!(parts.len(), 5);

    assert!(matches!(parts[0], Part::Text { .. }));
    assert!(matches!(
        &parts[1],
        Part::InlineData { inline_data } if inline_data.mime_type == "image/png"
    ));
    assert!(matches!(
        &parts[2],
        Part::FileData { file_data }
            if file_data.mime_type == "application/pdf"
                && file_data.file_uri == "https://example.com/doc.pdf"
    ));
    assert!(matches!(
        &parts[3],
        Part::FileData { file_data } if file_data.mime_type == "audio/mpeg"
    ));
    assert!(matches!(
        &parts[4],
        Part::InlineData { inline_data } if inline_data.mime_type == "video/mp4"
    ));
}

#[test]
fn build_tools_appends_provider_tools_after_the_function_declarations_entry() {
    let provider_tools = vec![parse_json_text(r#"{"googleSearch": {}}"#).unwrap()];
    let wire_tools = build_tools(&vec![], &provider_tools);

    assert_eq!(wire_tools.len(), 1);
    assert_eq!(json_to_text(&wire_tools[0]), r#"{"googleSearch":{}}"#);
}

#[test]
fn build_request_sends_a_tool_config_when_only_provider_tools_are_present() {
    let mut request = TextRequest::new("gemini-2.5-flash");
    request.provider_tools = vec![parse_json_text(r#"{"googleSearch": {}}"#).unwrap()];

    let wire_request = build_request(&request);

    assert!(wire_request.tool_config.is_some());
}

fn response(parts: Vec<Part>, finish: Option<&str>) -> GenerateContentResponse {
    GenerateContentResponse {
        candidates: vec![Candidate {
            content: Some(Content { role: "model".to_string(), parts }),
            finish_reason: finish.map(|s| s.to_string()),
        }],
        usage_metadata: None,
        model_version: Some("gemini-2.5-flash".to_string()),
        response_id: Some("r1".to_string()),
        prompt_feedback: None,
    }
}

#[test]
fn calls_are_numbered_and_finish_as_tool_calls() {
    let parts = vec![
        Part::Text { text: "Checking".to_string() },
        Part::FunctionCall { function_call: FunctionCallPart { name: "a".to_string(), args: parse_json_text("{}").unwrap() } },
        Part::FunctionCall { function_call: FunctionCallPart { name: "b".to_string(), args: parse_json_text(r#"{"x":1}"#).unwrap() } },
    ];

    let step = parse_response(response(parts, Some("STOP")), "gemini").unwrap();

    assert_eq!(step.text.as_deref(), Some("Checking"));
    assert_eq!(step.tool_calls.len(), 2);
    assert_eq!(step.tool_calls[0].id, "call_0");
    assert_eq!(step.tool_calls[1].id, "call_1");
    assert_eq!(step.tool_calls[1].name, "b");
    assert_eq!(step.finish_reason, FinishReason::ToolCalls);
    assert_eq!(step.meta.id.as_deref(), Some("r1"));
}

#[test]
fn a_blocked_prompt_is_a_provider_error() {
    let blocked = GenerateContentResponse {
        candidates: vec![],
        usage_metadata: None,
        model_version: None,
        response_id: None,
        prompt_feedback: Some(PromptFeedback { block_reason: Some("SAFETY".to_string()) }),
    };

    let err = parse_response(blocked, "gemini").unwrap_err();

    assert!(matches!(err, Error::Provider { ref kind, ref message, status: 0, .. }
        if kind.as_deref() == Some("blocked") && message == "SAFETY"));
}

#[test]
fn finish_reasons_map_when_there_are_no_calls() {
    let step = parse_response(response(vec![Part::Text { text: "x".to_string() }], Some("MAX_TOKENS")), "gemini").unwrap();
    assert_eq!(step.finish_reason, FinishReason::Length);
    let step = parse_response(response(vec![], Some("RECITATION")), "gemini").unwrap();
    assert_eq!(step.finish_reason, FinishReason::ContentFilter);
    assert_eq!(step.text, None);
}

#[test]
fn structured_text_is_parsed_as_json() {
    let parsed = parse_structured_response(
        response(vec![Part::Text { text: r#"{"name":"Ada"}"#.to_string() }], Some("STOP")),
        "gemini",
    )
    .unwrap();
    assert_eq!(json_to_text(&parsed.data), r#"{"name":"Ada"}"#);

    let err = parse_structured_response(response(vec![], None), "gemini").unwrap_err();
    assert!(matches!(err, Error::StructuredDecode { ref message, .. }
        if message == "response contained no text part with the structured output"));

    let err = parse_structured_response(response(vec![Part::Text { text: "nope".to_string() }], None), "gemini").unwrap_err();
    assert!(matches!(err, Error::StructuredDecode { .. }));
}

#[test]
fn call_ids_count_in_decimal() {
    assert_eq!(call_id(0), "call_0");
    assert_eq!(call_id(7), "call_7");
    assert_eq!(call_id(42), "call_42");
    assert_eq!(call_id(1000), "call_1000");
}

#[test]
fn a_streamed_call_is_one_delta_then_the_call() {
    let mut stream = GeminiStream::new();
    let chunk = response(
        vec![
            Part::Text { text: "Hi".to_string() },
            Part::FunctionCall { function_call: FunctionCallPart { name: "f".to_string(), args: parse_json_text(r#"{"a":2}"#).unwrap() } },
        ],
        Some("STOP"),
    );

    let events = stream.observe_chunk(chunk);

    assert_eq!(events.len(), 4);
    assert!(matches!(&events[0], StreamEvent::StreamStart { meta } if meta.id.as_deref() == Some("r1")));
    assert!(matches!(&events[1], StreamEvent::TextDelta { text } if text == "Hi"));
    assert!(matches!(&events[2], StreamEvent::ToolCallDelta { index: 0, id: Some(id), name: Some(n), arguments_delta }
        if id == "call_0" && n == "f" && arguments_delta == r#"{"a":2}"#));
    assert!(matches!(&events[3], StreamEvent::ToolCall(c) if c.id == "call_0"));

    let later = stream.observe_chunk(response(vec![Part::Text { text: "!".to_string() }], Some("MAX_TOKENS")));
    assert_eq!(later.len(), 1);
    assert!(matches!(stream.finish(), StreamEvent::StepFinish { finish_reason: FinishReason::ToolCalls, .. }));
}
