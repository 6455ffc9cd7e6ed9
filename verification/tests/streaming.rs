use llmprism::json::{json_to_text, JsonValue};
use llmprism::providers::openai::stream::OpenAiStream;
use llmprism::providers::openai::wire::{
    ChatStreamChoice, ChatStreamChunk, ChatStreamDelta, ChatStreamFunctionDelta,
    ChatStreamToolCallDelta, ChatUsage,
};
use llmprism::stream_event::StreamEvent;
use llmprism::stream_loop::{StreamLoop, StreamTurn};
use llmprism::testing::fake_provider::{chunk_words, step_stream_events};
use llmprism::testing::fixtures::FakeTextResponse;
use llmprism::text::TextRequest;
use llmprism::tool_loop::tool_result;
use llmprism::value_objects::{FinishReason, ToolOutcome, ToolOutput};

fn delta(index: usize, id: Option<&str>, name: Option<&str>, args: Option<&str>) -> ChatStreamToolCallDelta {
    ChatStreamToolCallDelta {
        index,
        id: id.map(|s| s.to_string()),
        function: Some(ChatStreamFunctionDelta {
            name: name.map(|s| s.to_string()),
            arguments: args.map(|s| s.to_string()),
        }),
    }
}

fn chunk(content: Option<&str>, deltas: Vec<ChatStreamToolCallDelta>, finish: Option<&str>) -> ChatStreamChunk {
    ChatStreamChunk {
        id: Some("chatcmpl-1".to_string()),
        model: Some("gpt-4o-mini".to_string()),
        choices: vec![ChatStreamChoice {
            delta: ChatStreamDelta { content: content.map(|s| s.to_string()), tool_calls: deltas },
            finish_reason: finish.map(|s| s.to_string()),
        }],
        usage: None,
    }
}

#[test]
fn openai_tool_call_fragments_are_assembled_by_index() {
    let mut s = OpenAiStream::new();

    let first = s.observe_chunk(chunk(Some("Hi"), vec![delta(1, Some("b"), Some("second"), Some("{\"y\":"))], None));
    assert_eq!(first.len(), 3);
    assert!(matches!(&first[0], StreamEvent::StreamStart { meta } if meta.id.as_deref() == Some("chatcmpl-1")));
    assert!(matches!(&first[1], StreamEvent::TextDelta { text } if text == "Hi"));
    assert!(matches!(&first[2], StreamEvent::ToolCallDelta { index: 1, id: Some(id), .. } if id == "b"));

    let second = s.observe_chunk(chunk(Some(""), vec![
        delta(0, Some("a"), Some("first"), Some("{}")),
        delta(1, None, None, Some("2}")),
        delta(1, None, None, Some("")),
    ], Some("tool_calls")));
    assert_eq!(second.len(), 2);
    assert!(matches!(&second[1], StreamEvent::ToolCallDelta { index: 1, id: Some(id), name: Some(n), arguments_delta }
        if id == "b" && n == "second" && arguments_delta == "2}"));

    let usage_chunk = ChatStreamChunk {
        id: None,
        model: None,
        choices: vec![],
        usage: Some(ChatUsage { prompt_tokens: 11, completion_tokens: 4, prompt_tokens_details: None }),
    };
    assert!(s.observe_chunk(usage_chunk).is_empty());

    let end = s.finish();
    assert_eq!(end.len(), 3);
    assert!(matches!(&end[0], StreamEvent::ToolCall(c) if c.id == "a" && c.name == "first"));
    match &end[1] {
        StreamEvent::ToolCall(c) => {
            assert_eq!(c.id, "b");
            assert_eq!(json_to_text(&c.arguments), "{\"y\":2}");
        }
        other => panic!("unexpected {other:?}"),
    }
    assert!(matches!(&end[2], StreamEvent::StepFinish { finish_reason: FinishReason::ToolCalls, usage } if usage.prompt_tokens == 11));
}

#[test]
fn openai_invalid_arguments_become_null() {
    let mut s = OpenAiStream::new();
    s.observe_chunk(chunk(None, vec![delta(0, None, Some("f"), Some("{not json"))], Some("stop")));
    let end = s.finish();
    match &end[0] {
        StreamEvent::ToolCall(c) => {
            assert_eq!(c.id, "");
            assert!(matches!(c.arguments, JsonValue::Null));
        }
        other => panic!("unexpected {other:?}"),
    }
}

#[test]
fn chunk_words_puts_the_text_back_together() {
    let text = "the quick  brown fox";
    for k in 0..6 {
        let chunks = chunk_words(text, k);
        assert_eq!(chunks.concat(), text);
    }
    assert_eq!(chunk_words(text, 1), vec!["the ", "quick ", " ", "brown ", "fox"]);
    assert_eq!(chunk_words(text, 2), vec!["the quick ", " brown ", "fox"]);
    assert_eq!(chunk_words("", 3), Vec::<String>::new());
    assert_eq!(chunk_words("one two ", 2), vec!["one two "]);
}

#[test]
fn a_streamed_round_trip_rebuilds_the_same_response() {
    let step = FakeTextResponse::new("Hello there friend").build();
    let events = step_stream_events(&step, 1);
    assert_eq!(events.len(), 1 + 3 + 1);

    let mut state = StreamLoop::start(TextRequest::new("m"));
    for event in &events {
        state.observe(event);
    }
    assert!(state.can_end_round());
    match state.end_round() {
        StreamTurn::Finished(StreamEvent::StreamEnd { response }) => {
            assert_eq!(response.text.as_deref(), Some("Hello there friend"));
            assert_eq!(response.finish_reason, FinishReason::Stop);
        }
        _ => panic!("expected the stream to end"),
    }
}

#[test]
fn a_streamed_tool_round_reports_each_result() {
    let step = FakeTextResponse::new("")
        .with_tool_call("c1", "lookup", JsonValue::Null)
        .build();
    let mut request = TextRequest::new("m");
    request.max_steps = 2;
    let mut state = StreamLoop::start(request);
    for event in &step_stream_events(&step, 1) {
        state.observe(event);
    }
    let pending = match state.end_round() {
        StreamTurn::CallTools(p) => p,
        _ => panic!("expected tool calls"),
    };
    assert_eq!(pending.text, None);
    let result = tool_result(&pending.calls[0], ToolOutcome::Output(ToolOutput::from_text("ok".to_string())));
    let (state, events) = pending.resume(vec![result]);
    assert_eq!(events.len(), 1);
    assert!(matches!(&events[0], StreamEvent::ToolResult(r) if r.tool_call_id == "c1"));
    assert_eq!(state.steps.len(), 1);
    assert_eq!(state.request.messages.len(), 2);
    assert!(state.text.is_empty());
}

#[test]
fn a_fake_stream_amounts_to_its_canned_round_trip() {
    let usage = llmprism::value_objects::Usage { prompt_tokens: 7, completion_tokens: 3, ..Default::default() };
    let step = FakeTextResponse::new("one two three four five")
        .with_tool_call("c1", "lookup", JsonValue::Null)
        .with_usage(usage)
        .with_finish_reason(FinishReason::ToolCalls)
        .build();
    let events = step_stream_events(&step, 2);
    assert_eq!(events.len(), 1 + 3 + 1 + 1);

    let mut state = StreamLoop::start(TextRequest::new("m"));
    for event in &events {
        state.observe(event);
    }
    assert_eq!(state.text, "one two three four five");
    assert_eq!(state.tool_calls.len(), 1);
    assert_eq!(state.tool_calls[0].id, "c1");
    assert_eq!(state.tool_calls[0].name, "lookup");
    assert_eq!(state.usage.prompt_tokens, 7);
    assert_eq!(state.usage.completion_tokens, 3);
    assert_eq!(state.finish_reason, FinishReason::ToolCalls);
}

#[test]
fn streaming_and_generating_end_with_the_same_response() {
    let replies = || {
        vec![
            FakeTextResponse::new("")
                .with_tool_call("c1", "lookup", JsonValue::Null)
                .with_finish_reason(FinishReason::ToolCalls)
                .build(),
            FakeTextResponse::new("It is sunny").build(),
        ]
    };
    let mut request = TextRequest::new("m");
    request.max_steps = 3;
    let output = || ToolOutcome::Output(ToolOutput::from_text("ok".to_string()));

    let mut generate = llmprism::tool_loop::TextLoop::start(request);
    let mut generated = None;
    for step in replies() {
        assert!(generate.can_accept(&step));
        match generate.after_step(step) {
            llmprism::tool_loop::LoopTurn::Finished(response) => {
                generated = Some(response);
                break;
            }
            llmprism::tool_loop::LoopTurn::CallTools(pending) => {
                let result = tool_result(&pending.calls[0], output());
                generate = pending.resume(vec![result]);
            }
        }
    }
    let generated = generated.expect("the plain loop finishes");

    let mut request = TextRequest::new("m");
    request.max_steps = 3;
    let mut stream = StreamLoop::start(request);
    let mut streamed = None;
    for step in replies() {
        for event in &step_stream_events(&step, 1) {
            stream.observe(event);
        }
        assert!(stream.can_end_round());
        match stream.end_round() {
            StreamTurn::Finished(StreamEvent::StreamEnd { response }) => {
                streamed = Some(response);
                break;
            }
            StreamTurn::CallTools(pending) => {
                let result = tool_result(&pending.calls[0], output());
                stream = pending.resume(vec![result]).0;
            }
            _ => panic!("unexpected turn"),
        }
    }
    let streamed = streamed.expect("the streamed loop finishes");

    assert_eq!(streamed.text, generated.text);
    assert_eq!(streamed.text.as_deref(), Some("It is sunny"));
    assert_eq!(streamed.finish_reason, generated.finish_reason);
    assert_eq!(streamed.steps.len(), 2);
    assert_eq!(generated.steps.len(), 2);
    assert_eq!(streamed.usage.prompt_tokens, generated.usage.prompt_tokens);
    assert_eq!(streamed.steps[0].tool_calls[0].name, generated.steps[0].tool_calls[0].name);
}
