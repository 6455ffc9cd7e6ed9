//! Text generation: the request ([`TextRequest`]), one round trip's result
//! ([`Step`]) and the final, aggregated result ([`TextResponse`]).

use vstd::prelude::*;

use crate::json::JsonValue;
use crate::schema::{owned, ObjectSchema};
use crate::value_objects::{copy_opt, FinishReason, Message, Meta, ToolCall, Usage};

verus! {

/// How much freedom the model has to decide whether (and which) tool to call.
#[derive(Debug, Clone)]
pub enum ToolChoice {
    /// Let the model decide freely. The default.
    Auto,
    /// Don't allow any tool call on this turn.
    NoTool,
    /// Require the model to call some tool.
    Any,
    /// Require the model to call this specific tool (by name).
    Tool(String),
}

/// What a request tells the model about one tool it may call, and how the tool
/// loop runs it.
#[derive(Debug)]
pub struct ToolDefinition {
    /// The name the model uses to call this tool.
    pub name: String,
    /// A plain-language description of what the tool does.
    pub description: String,
    /// The shape of the arguments the tool expects.
    pub parameters: ObjectSchema,
    /// Whether the tool may run at the same time as other concurrent tools.
    pub concurrent: bool,
}

/// The frozen, ready-to-send description of one text-generation call.
///
/// `temperature` and `top_p` hold the IEEE-754 bit pattern of the `f32` value
/// (`f32::to_bits`), so the value passes through unchanged.
#[derive(Debug)]
pub struct TextRequest {
    /// The model identifier, in the target provider's own format.
    pub model: String,
    /// System-level instructions, in the order they were added.
    pub system_prompts: Vec<String>,
    /// The conversation so far, oldest first.
    pub messages: Vec<Message>,
    /// The maximum number of tokens the model may generate.
    pub max_tokens: Option<u32>,
    /// Sampling temperature, as `f32` bits.
    pub temperature: Option<u32>,
    /// Nucleus-sampling cutoff, as `f32` bits.
    pub top_p: Option<u32>,
    /// The maximum number of round trips the tool loop runs. Defaults to `1`.
    pub max_steps: u32,
    /// Tools the model may call during this request.
    pub tools: Vec<ToolDefinition>,
    /// How free the model is to call a tool.
    pub tool_choice: ToolChoice,
    /// Marks the system prompt as a cache breakpoint where supported.
    pub cache_system_prompt: bool,
    /// Extra provider-specific fields; only a JSON object has an effect.
    pub provider_options: JsonValue,
    /// Provider-native tools passed through as-is (e.g. `{"googleSearch": {}}`).
    pub provider_tools: Vec<JsonValue>,
}

impl TextRequest {
    /// A bare request targeting `model`, with no messages, no tools, and every
    /// optional setting left at the provider's default.
    pub fn new(model: &str) -> (r: TextRequest)
        ensures
            r.model@ == model@,
            r.system_prompts@.len() == 0,
            r.messages@.len() == 0,
            r.max_tokens is None,
            r.temperature is None,
            r.top_p is None,
            r.max_steps == 1,
            r.tools@.len() == 0,
            r.tool_choice is Auto,
            !r.cache_system_prompt,
            r.provider_options is Null,
            r.provider_tools@.len() == 0,
    {
        TextRequest {
            model: owned(model),
            system_prompts: Vec::new(),
            messages: Vec::new(),
            max_tokens: None,
            temperature: None,
            top_p: None,
            max_steps: 1,
            tools: Vec::new(),
            tool_choice: ToolChoice::Auto,
            cache_system_prompt: false,
            provider_options: JsonValue::Null,
            provider_tools: Vec::new(),
        }
    }
}

/// The result of exactly one request/response round trip with a provider.
#[derive(Debug)]
pub struct Step {
    /// The text the model generated in this round trip, if any.
    pub text: Option<String>,
    /// Any tools the model asked to call in this round trip.
    pub tool_calls: Vec<ToolCall>,
    /// Why the model stopped generating on this round trip.
    pub finish_reason: FinishReason,
    /// Token usage for this round trip.
    pub usage: Usage,
    /// Provider-reported metadata for this round trip.
    pub meta: Meta,
}

/// The final result of a text-generation call, once the tool loop finished.
#[derive(Debug)]
pub struct TextResponse {
    /// The last round trip's reply text.
    pub text: Option<String>,
    /// Why the model stopped on the last round trip.
    pub finish_reason: FinishReason,
    /// Prompt and completion tokens summed across every round trip.
    pub usage: Usage,
    /// Every round trip, oldest first.
    pub steps: Vec<Step>,
}

/// The prompt tokens of `steps`, summed.
pub open spec fn total_prompt_tokens(steps: Seq<Step>) -> int
    decreases steps.len(),
{
    if steps.len() == 0 {
        0
    } else {
        total_prompt_tokens(steps.drop_last()) + steps.last().usage.prompt_tokens
    }
}

/// The completion tokens of `steps`, summed.
pub open spec fn total_completion_tokens(steps: Seq<Step>) -> int
    decreases steps.len(),
{
    if steps.len() == 0 {
        0
    } else {
        total_completion_tokens(steps.drop_last()) + steps.last().usage.completion_tokens
    }
}

/// Whether the summed token counts of `steps` fit the `u32` fields of a
/// response.
pub open spec fn usage_fits(steps: Seq<Step>) -> bool {
    total_prompt_tokens(steps) <= u32::MAX && total_completion_tokens(steps) <= u32::MAX
}

/// A sum over a prefix never exceeds the sum over the whole list.
pub proof fn lemma_totals_monotone(steps: Seq<Step>, k: int)
    requires
        0 <= k <= steps.len(),
    ensures
        total_prompt_tokens(steps.subrange(0, k)) <= total_prompt_tokens(steps),
        total_completion_tokens(steps.subrange(0, k)) <= total_completion_tokens(steps),
    decreases steps.len() - k,
{
    if k < steps.len() {
        lemma_totals_monotone(steps, k + 1);
        assert(steps.subrange(0, k + 1).drop_last() =~= steps.subrange(0, k));
    } else {
        assert(steps.subrange(0, k) =~= steps);
    }
}

/// Whether `r` is the fold of `steps`: the last step's text and finish reason,
/// prompt and completion tokens summed over every step, the other usage counts
/// unset, and the steps themselves kept in order.
pub open spec fn folds_steps(r: TextResponse, steps: Seq<Step>) -> bool {
    &&& steps.len() > 0
    &&& r.text == steps.last().text
    &&& r.finish_reason == steps.last().finish_reason
    &&& r.usage.prompt_tokens == total_prompt_tokens(steps)
    &&& r.usage.completion_tokens == total_completion_tokens(steps)
    &&& r.usage.cache_write_tokens is None
    &&& r.usage.cache_read_tokens is None
    &&& r.usage.thought_tokens is None
    &&& r.steps@ == steps
}

/// Whether the summed token counts of `steps` fit in `u32`, computed.
pub fn steps_usage_fits(steps: &Vec<Step>) -> (r: bool)
    ensures
        r == usage_fits(steps@),
{
    let n = steps.len();
    let mut prompt: u64 = 0;
    let mut completion: u64 = 0;
    let mut i: usize = 0;
    while i < n
        invariant
            n == steps@.len(),
            i <= n,
            prompt == total_prompt_tokens(steps@.subrange(0, i as int)),
            completion == total_completion_tokens(steps@.subrange(0, i as int)),
            prompt <= u32::MAX,
            completion <= u32::MAX,
        decreases n - i,
    {
        proof {
            assert(steps@.subrange(0, i + 1).drop_last() =~= steps@.subrange(0, i as int));
            lemma_totals_monotone(steps@, i + 1);
        }
        prompt = prompt + steps[i].usage.prompt_tokens as u64;
        completion = completion + steps[i].usage.completion_tokens as u64;
        i = i + 1;
        if prompt > 0xffff_ffffu64 || completion > 0xffff_ffffu64 {
            proof {
                lemma_totals_monotone(steps@, i as int);
            }
            return false;
        }
    }
    assert(steps@.subrange(0, n as int) =~= steps@);
    true
}

impl TextResponse {
    /// Folds a sequence of round trips together: the reply text and finish
    /// reason come from the last step, and prompt and completion tokens are
    /// summed across all of them (the other usage counts are left unset).
    pub fn from_steps(steps: Vec<Step>) -> (r: TextResponse)
        requires
            steps@.len() > 0,
            usage_fits(steps@),
        ensures
            folds_steps(r, steps@),
    {
        let n = steps.len();
        let last = &steps[n - 1];
        let text = copy_opt(&last.text);
        let finish_reason = last.finish_reason;
        let mut usage = Usage::zero();
        let mut i: usize = 0;
        while i < n
            invariant
                n == steps@.len(),
                i <= n,
                usage_fits(steps@),
                usage.prompt_tokens == total_prompt_tokens(steps@.subrange(0, i as int)),
                usage.completion_tokens == total_completion_tokens(steps@.subrange(0, i as int)),
                usage.cache_write_tokens is None,
                usage.cache_read_tokens is None,
                usage.thought_tokens is None,
            decreases n - i,
        {
            proof {
                assert(steps@.subrange(0, i + 1).drop_last() =~= steps@.subrange(0, i as int));
                lemma_totals_monotone(steps@, i + 1);
            }
            usage.prompt_tokens = usage.prompt_tokens + steps[i].usage.prompt_tokens;
            usage.completion_tokens = usage.completion_tokens + steps[i].usage.completion_tokens;
            i = i + 1;
        }
        assert(steps@.subrange(0, n as int) =~= steps@);
        TextResponse { text, finish_reason, usage, steps }
    }
}

/// A folded run answers with its last round trip: whatever round trips came
/// before (tool calls, earlier stops), the response's text and finish reason
/// are those of the round trip that ended the run, and its token counts are
/// the earlier counts plus that round trip's own.
pub proof fn law_fold_answers_with_last_round(r: TextResponse, before: Seq<Step>, last: Step)
    requires
        folds_steps(r, before.push(last)),
    ensures
        r.text == last.text,
        r.finish_reason == last.finish_reason,
        r.usage.prompt_tokens == total_prompt_tokens(before) + last.usage.prompt_tokens,
        r.usage.completion_tokens == total_completion_tokens(before) + last.usage.completion_tokens,
        r.steps@.len() == before.len() + 1,
        r.steps@[before.len() as int] == last,
{
    assert(before.push(last).drop_last() =~= before);
}

/// Two runs that end with the same round trip give the same text and finish
/// reason, however different the round trips before it were.
pub proof fn law_same_last_round_same_answer(
    r1: TextResponse,
    before1: Seq<Step>,
    r2: TextResponse,
    before2: Seq<Step>,
    last: Step,
)
    requires
        folds_steps(r1, before1.push(last)),
        folds_steps(r2, before2.push(last)),
    ensures
        r1.text == r2.text,
        r1.finish_reason == r2.finish_reason,
{
    law_fold_answers_with_last_round(r1, before1, last);
    law_fold_answers_with_last_round(r2, before2, last);
}

/// Folding one more round trip onto a run adds that round trip's token
/// counts to the run's and takes its text and finish reason.
pub proof fn law_fold_extends(r1: TextResponse, r2: TextResponse, steps: Seq<Step>, next: Step)
    requires
        folds_steps(r1, steps),
        folds_steps(r2, steps.push(next)),
    ensures
        r2.usage.prompt_tokens == r1.usage.prompt_tokens + next.usage.prompt_tokens,
        r2.usage.completion_tokens == r1.usage.completion_tokens + next.usage.completion_tokens,
        r2.text == next.text,
        r2.finish_reason == next.finish_reason,
        r2.steps@ == r1.steps@.push(next),
{
    law_fold_answers_with_last_round(r2, steps, next);
}

} // verus!
