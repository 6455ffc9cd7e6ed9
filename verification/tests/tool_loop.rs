use llmprism::error::ToolError;
use llmprism::json::JsonValue;
use llmprism::schema::ObjectSchema;
use llmprism::text::{Step, TextRequest, ToolChoice, ToolDefinition};
use llmprism::tool_loop::{
    call_outcome, merge_in_call_order, resolve_tool, schedule_tool_calls, tool_result,
    unresolved_outcome, LoopTurn, TextLoop, ToolLookup,
};
use llmprism::value_objects::{
    FinishReason, Message, Meta, ToolCall, ToolOutcome, ToolOutput, Usage,
};

fn tool(name: &str, concurrent: bool) -> ToolDefinition {
    ToolDefinition {
        name: name.to_string(),
        description: format!("{name} tool"),
        parameters: ObjectSchema::new("parameters"),
        concurrent,
    }
}

fn call(id: &str, name: &str) -> ToolCall {
    ToolCall { id: id.to_string(), name: name.to_string(), arguments: JsonValue::Null }
}

fn step(text: Option<&str>, calls: Vec<ToolCall>, finish: FinishReason, prompt: u32) -> Step {
    Step {
        text: text.map(|t| t.to_string()),
        tool_calls: calls,
        finish_reason: finish,
        usage: Usage { prompt_tokens: prompt, completion_tokens: 1, ..Usage::default() },
        meta: Meta::default(),
    }
}

#[test]
fn a_reply_without_tool_calls_finishes_the_loop() {
    let mut request = TextRequest::new("m");
    request.max_steps = 5;
    let state = TextLoop::start(request);

    match state.after_step(step(Some("done"), vec![], FinishReason::Stop, 3)) {
        LoopTurn::Finished(response) => {
            assert_eq!(response.text.as_deref(), Some("done"));
            assert_eq!(response.steps.len(), 1);
            assert_eq!(response.usage.prompt_tokens, 3);
        }
        LoopTurn::CallTools(_) => panic!("expected the loop to finish"),
    }
}

#[test]
fn tool_calls_are_run_and_the_choice_is_reset_for_one_round() {
    let mut request = TextRequest::new("m");
    request.max_steps = 3;
    request.tool_choice = ToolChoice::Tool("lookup".to_string());
    request.tools = vec![tool("lookup", false)];
    let state = TextLoop::start(request);

    let pending = match state.after_step(step(Some("thinking"), vec![call("c1", "lookup")], FinishReason::ToolCalls, 2)) {
        LoopTurn::CallTools(p) => p,
        LoopTurn::Finished(_) => panic!("expected tool calls"),
    };
    assert_eq!(pending.calls.len(), 1);
    let result = tool_result(&pending.calls[0], ToolOutcome::Output(ToolOutput::from_text("42".to_string())));
    let state = pending.resume(vec![result]);

    assert!(matches!(state.request.tool_choice, ToolChoice::Auto));
    assert_eq!(state.request.messages.len(), 2);
    assert!(matches!(&state.request.messages[0], Message::Assistant(a) if a.content.as_deref() == Some("thinking") && a.tool_calls.len() == 1));
    assert!(matches!(&state.request.messages[1], Message::ToolResult(r) if r.tool_results[0].tool_call_id == "c1"));

    match state.after_step(step(Some("answer"), vec![], FinishReason::Stop, 5)) {
        LoopTurn::Finished(response) => {
            assert_eq!(response.steps.len(), 2);
            assert_eq!(response.usage.prompt_tokens, 7);
            assert_eq!(response.usage.completion_tokens, 2);
            assert_eq!(response.text.as_deref(), Some("answer"));
        }
        LoopTurn::CallTools(_) => panic!("expected the loop to finish"),
    }
}

#[test]
fn the_step_limit_stops_the_loop_even_with_pending_tool_calls() {
    let request = TextRequest::new("m");
    let state = TextLoop::start(request);

    match state.after_step(step(None, vec![call("c1", "x")], FinishReason::ToolCalls, 1)) {
        LoopTurn::Finished(response) => {
            assert_eq!(response.finish_reason, FinishReason::ToolCalls);
            assert_eq!(response.steps[0].tool_calls.len(), 1);
        }
        LoopTurn::CallTools(_) => panic!("max_steps of 1 allows no tool round"),
    }
}

#[test]
fn a_step_that_would_overflow_the_totals_is_refused() {
    let state = TextLoop::start(TextRequest::new("m"));
    assert!(state.can_accept(&step(None, vec![], FinishReason::Stop, u32::MAX)));
    let mut request = TextRequest::new("m");
    request.max_steps = 4;
    let state = TextLoop::start(request);
    let pending = match state.after_step(step(None, vec![call("c", "t")], FinishReason::ToolCalls, u32::MAX)) {
        LoopTurn::CallTools(p) => p,
        LoopTurn::Finished(_) => panic!("expected tool calls"),
    };
    let state = pending.resume(vec![]);
    assert!(!state.can_accept(&step(None, vec![], FinishReason::Stop, 1)));
    assert!(state.can_accept(&step(None, vec![], FinishReason::Stop, 0)));
}

#[test]
fn tools_resolve_by_name() {
    let tools = vec![tool("a", false), tool("b", true), tool("b", false)];
    assert_eq!(resolve_tool(&tools, "a"), ToolLookup::Unique(0));
    assert_eq!(resolve_tool(&tools, "b"), ToolLookup::Ambiguous);
    assert_eq!(resolve_tool(&tools, "c"), ToolLookup::Missing);
}

#[test]
fn unresolved_calls_report_the_error_to_the_model() {
    match unresolved_outcome("c", ToolLookup::Missing) {
        Some(ToolOutcome::Error(m)) => assert_eq!(m, "tool 'c' not found"),
        _ => panic!(),
    }
    match unresolved_outcome("b", ToolLookup::Ambiguous) {
        Some(ToolOutcome::Error(m)) => assert_eq!(m, "multiple tools named 'b' are registered"),
        _ => panic!(),
    }
    assert!(unresolved_outcome("a", ToolLookup::Unique(0)).is_none());
    match call_outcome(Err(ToolError::Runtime { name: "a".to_string(), message: "boom".to_string() })) {
        ToolOutcome::Error(m) => assert_eq!(m, "tool 'a' failed: boom"),
        _ => panic!(),
    }
    match call_outcome(Err(ToolError::InvalidArguments { name: "a".to_string(), message: "x".to_string() })) {
        ToolOutcome::Error(m) => assert_eq!(m, "invalid arguments for tool 'a': x"),
        _ => panic!(),
    }
}

#[test]
fn concurrent_and_sequential_results_come_back_in_call_order() {
    let tools = vec![tool("fast", true), tool("slow", false), tool("fast", false)];
    let calls = vec![call("1", "slow"), call("2", "fast"), call("3", "missing"), call("4", "fast")];

    let (concurrent, sequential) = schedule_tool_calls(&tools, &calls);
    assert_eq!(concurrent, vec![1, 3]);
    assert_eq!(sequential, vec![0, 2]);

    let result = |i: usize| tool_result(&calls[i], ToolOutcome::Output(ToolOutput::from_text(format!("r{i}"))));
    let concurrent_results = vec![result(1), result(3)];
    let sequential_results = vec![result(0), result(2)];
    let merged = merge_in_call_order(calls.len(), &concurrent, &concurrent_results, &sequential, &sequential_results);

    let ids: Vec<&str> = merged.iter().map(|r| r.tool_call_id.as_str()).collect();
    assert_eq!(ids, vec!["1", "2", "3", "4"]);
}
