use llmprism::error::{Error, ToolError};
use llmprism::json::{json_to_text, parse_json_text, JsonValue};
use llmprism::mcp::{mcp_call_arguments, mcp_call_outcome, mcp_tool_definition, McpBlock};
use llmprism::providers::openai::embeddings::{parse_response, ApiEmbedding, ApiResponse, ApiUsage};
use llmprism::testing::fake_provider::ResponseQueue;
use llmprism::testing::fixtures::{
    FakeAudioResponse, FakeEmbeddingsResponse, FakeImagesResponse, FakeModerationResponse,
    FakeStructuredResponse, FakeTextResponse, FakeTranscriptionResponse,
};
use llmprism::text::{Step, TextResponse};
use llmprism::tracing_middleware::{record_input_only, record_response};
use llmprism::value_objects::{FinishReason, MediaData, Meta, Usage};

#[test]
fn json_fields_are_set_in_place_or_appended() {
    let v = JsonValue::empty_object()
        .with_field("a", JsonValue::Bool(true))
        .with_field("b", JsonValue::Null)
        .with_field("a", JsonValue::Bool(false));
    match &v {
        JsonValue::Object(fields) => {
            assert_eq!(fields.len(), 2);
            assert_eq!(fields[0].0, "a");
            assert!(matches!(fields[0].1, JsonValue::Bool(false)));
        }
        _ => panic!(),
    }
    assert!(matches!(JsonValue::Null.with_field("k", JsonValue::Null), JsonValue::Object(f) if f.len() == 1));
    assert!(matches!(JsonValue::Bool(true).with_field("k", JsonValue::Null), JsonValue::Bool(true)));
    assert_eq!(json_to_text(&parse_json_text("[1, \"x\", null]").unwrap()), "[1,\"x\",null]");
    assert!(parse_json_text("{").is_err());
}

#[test]
fn text_response_sums_usage_and_keeps_the_last_reply() {
    let steps = vec![
        FakeTextResponse::new("first").with_usage(Usage { prompt_tokens: 2, completion_tokens: 3, ..Usage::default() }).build(),
        FakeTextResponse::new("second").with_usage(Usage { prompt_tokens: 5, completion_tokens: 7, cache_read_tokens: Some(1), ..Usage::default() }).build(),
    ];
    let response = TextResponse::from_steps(steps);
    assert_eq!(response.text.as_deref(), Some("second"));
    assert_eq!(response.usage.prompt_tokens, 7);
    assert_eq!(response.usage.completion_tokens, 10);
    assert_eq!(response.usage.cache_read_tokens, None);
    assert_eq!(response.steps.len(), 2);
}

#[test]
fn fixtures_build_what_they_describe() {
    let step: Step = FakeTextResponse::new("")
        .with_tool_call("id", "name", JsonValue::Null)
        .with_finish_reason(FinishReason::Length)
        .build();
    assert_eq!(step.text, None);
    assert_eq!(step.tool_calls.len(), 1);
    assert_eq!(step.finish_reason, FinishReason::Length);

    let structured = FakeStructuredResponse::new(JsonValue::Bool(true)).with_finish_reason(FinishReason::Other).build();
    assert_eq!(structured.finish_reason, FinishReason::Other);

    let moderation = FakeModerationResponse::new().flagged(true).flagged(false).build();
    assert_eq!(moderation.results.iter().map(|r| r.flagged).collect::<Vec<_>>(), vec![true, false]);

    let embeddings = FakeEmbeddingsResponse::new().with_embedding(vec![1.5f32.to_bits()]).build();
    assert_eq!(f32::from_bits(embeddings.embeddings[0].vector[0]), 1.5);

    let images = FakeImagesResponse::new().with_url("https://x").with_base64("QQ==").build();
    assert!(matches!(&images.images[0].data, MediaData::Url(u) if u == "https://x"));
    assert!(matches!(&images.images[1].data, MediaData::Base64(d) if d == "QQ=="));

    let audio = FakeAudioResponse::new(vec![1, 2], "audio/mpeg").build();
    assert_eq!(audio.audio.mime_type, "audio/mpeg");

    let transcription = FakeTranscriptionResponse::new("hello").build();
    assert_eq!(transcription.text, "hello");
}

#[test]
fn queued_responses_come_out_in_order() {
    let mut queue: ResponseQueue<&str, u32> = ResponseQueue::new();
    queue.push(1);
    queue.push(2);
    assert!(queue.has_response());
    assert_eq!(queue.next("a"), 1);
    assert_eq!(queue.next("b"), 2);
    assert!(!queue.has_response());
    assert_eq!(queue.recorded(), &vec!["a", "b"]);
}

#[test]
fn openai_embeddings_are_sorted_by_input_position() {
    let response = ApiResponse {
        model: "text-embedding-3-small".to_string(),
        data: vec![
            ApiEmbedding { index: 2, embedding: vec![3] },
            ApiEmbedding { index: 0, embedding: vec![1] },
            ApiEmbedding { index: 1, embedding: vec![2] },
            ApiEmbedding { index: 0, embedding: vec![4] },
        ],
        usage: ApiUsage { prompt_tokens: 5 },
    };
    let parsed = parse_response(response);
    let vectors: Vec<u32> = parsed.embeddings.iter().map(|e| e.vector[0]).collect();
    assert_eq!(vectors, vec![1, 4, 2, 3]);
    assert_eq!(parsed.usage.prompt_tokens, 5);
    assert_eq!(parsed.meta.model.as_deref(), Some("text-embedding-3-small"));
}

#[test]
fn mcp_replies_become_outputs_or_errors() {
    let blocks = vec![
        McpBlock::Text("line 1".to_string()),
        McpBlock::Other(Some(parse_json_text(r#"{"type": "image"}"#).unwrap())),
        McpBlock::Other(None),
        McpBlock::Text("line 2".to_string()),
    ];
    let out = mcp_call_outcome("files", blocks, None, Some(JsonValue::Bool(true))).unwrap();
    assert_eq!(out.content, "line 1\nline 2");
    assert_eq!(out.artifacts.len(), 2);
    assert!(matches!(out.artifacts[0], JsonValue::Bool(true)));

    let err = mcp_call_outcome("files", vec![], Some(true), None).unwrap_err();
    assert!(matches!(err, ToolError::Runtime { ref name, ref message }
        if name == "files" && message == "tool call failed with no further detail"));

    let err = mcp_call_outcome("files", vec![McpBlock::Text("denied".to_string())], Some(true), None).unwrap_err();
    assert!(matches!(err, ToolError::Runtime { ref message, .. } if message == "denied"));

    assert!(mcp_call_arguments(JsonValue::Null).is_none());
    assert!(mcp_call_arguments(JsonValue::empty_object()).is_some());

    let def = mcp_tool_definition("ls".to_string(), None, vec![]);
    assert_eq!(def.description, "");
    assert_eq!(def.parameters.name, "ls");
    assert!(!def.concurrent);
}

#[test]
fn tracing_records_model_and_tokens() {
    let meta = Meta { id: None, model: Some("m".to_string()), rate_limits: vec![] };
    let record = record_response(&meta, Some(Usage { prompt_tokens: 3, completion_tokens: 4, ..Usage::default() }));
    assert_eq!(record.response_model.as_deref(), Some("m"));
    assert_eq!(record.input_tokens, Some(3));
    assert_eq!(record.output_tokens, Some(4));
    let record = record_response(&meta, None);
    assert_eq!(record.input_tokens, None);
    let record = record_input_only(&meta, 9);
    assert_eq!(record.input_tokens, Some(9));
    assert_eq!(record.output_tokens, None);
}

#[test]
fn tool_errors_read_as_sentences() {
    assert_eq!(ToolError::NotFound { name: "x".to_string() }.to_message(), "tool 'x' not found");
    assert!(matches!(Error::unsupported("fake", "images"), Error::Unsupported { ref provider, capability: "images" } if provider == "fake"));
}

#[test]
fn the_last_registration_of_a_name_wins() {
    let mut providers: llmprism::registry::NamedProviders<u32> = llmprism::registry::NamedProviders::new();
    providers.register("openai", 1);
    providers.register("anthropic", 2);
    providers.register("openai", 3);
    assert_eq!(providers.provider("openai").ok(), Some(&3));
    assert_eq!(providers.provider("anthropic").ok(), Some(&2));
    assert_eq!(providers.entries.len(), 2);
}

#[test]
fn an_unregistered_name_is_an_unknown_provider() {
    let mut providers: llmprism::registry::NamedProviders<u32> = llmprism::registry::NamedProviders::new();
    providers.register("openai", 1);
    match providers.provider("gemini") {
        Err(llmprism::error::Error::UnknownProvider(name)) => assert_eq!(name, "gemini"),
        _ => panic!("expected an unknown provider"),
    }
}
