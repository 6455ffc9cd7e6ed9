//! The multi-step tool-calling loop shared by every provider, as a state machine.
//!
//! A provider only knows how to do one request/response round trip. Everything
//! about looping -- deciding whether to stop, which tool each call resolves to,
//! which calls may run at the same time, the order results come back in, and
//! what gets appended to the conversation -- is decided here. The caller sends
//! [`TextLoop::request`] to the provider, hands the reply to
//! [`TextLoop::after_step`], runs the tool calls it is given back, and hands the
//! results to [`PendingTools::resume`].

use vstd::prelude::*;

use crate::error::{multiple_found_text, not_found_text, tool_error_text, ToolError};
use crate::text::{
    folds_steps, steps_usage_fits, usage_fits, TextRequest, TextResponse, Step, ToolChoice,
    ToolDefinition,
};
use crate::value_objects::{
    copy_opt, copy_tool_calls, AssistantMessage, FinishReason, Message, ToolCall,
    ToolOutcome, ToolOutput, ToolResult, ToolResultMessage, Usage,
};

verus! {

/// Whether the tool at position `i` is the first one named `name`.
pub open spec fn is_first_named(tools: Seq<ToolDefinition>, name: Seq<char>, i: int) -> bool {
    &&& 0 <= i < tools.len()
    &&& tools[i].name@ == name
    &&& forall|j: int| 0 <= j < i ==> tools[j].name@ != name
}

/// Whether a call of `name` runs alongside other calls: the first tool of that
/// name exists and is marked concurrent.
pub open spec fn runs_concurrently(tools: Seq<ToolDefinition>, name: Seq<char>) -> bool {
    exists|i: int| is_first_named(tools, name, i) && tools[i].concurrent
}

/// What a tool name resolves to among the tools of a request.
#[derive(Debug, Clone, Copy, PartialEq, Eq, Structural)]
pub enum ToolLookup {
    /// No tool has that name.
    Missing,
    /// Exactly one tool has that name, at this position.
    Unique(usize),
    /// Two or more tools have that name.
    Ambiguous,
}

/// Whether `r` is what `name` resolves to among `tools`.
pub open spec fn resolves_to(tools: Seq<ToolDefinition>, name: Seq<char>, r: ToolLookup) -> bool {
    match r {
        ToolLookup::Missing => forall|i: int| 0 <= i < tools.len() ==> tools[i].name@ != name,
        ToolLookup::Unique(k) => 0 <= k < tools.len() && tools[k as int].name@ == name && forall|
            i: int,
        |
            0 <= i < tools.len() && i != k ==> tools[i].name@ != name,
        ToolLookup::Ambiguous => exists|i: int, j: int|
            0 <= i < j < tools.len() && tools[i].name@ == name && tools[j].name@ == name,
    }
}

/// Finds which tool a call of `name` refers to.
pub fn resolve_tool(tools: &Vec<ToolDefinition>, name: &str) -> (r: ToolLookup)
    ensures
        resolves_to(tools@, name@, r),
{
    let mut found: Option<usize> = None;
    let mut i: usize = 0;
    while i < tools.len()
        invariant
            i <= tools@.len(),
            found matches Some(k) ==> k < i && tools@[k as int].name@ == name@ && forall|j: int|
                0 <= j < i && j != k ==> tools@[j].name@ != name@,
            found is None ==> forall|j: int| 0 <= j < i ==> tools@[j].name@ != name@,
        decreases tools@.len() - i,
    {
        if crate::json::same_text(tools[i].name.as_str(), name) {
            match found {
                Some(k) => {
                    assert(tools@[k as int].name@ == name@ && tools@[i as int].name@ == name@);
                    return ToolLookup::Ambiguous;
                },
                None => {
                    found = Some(i);
                },
            }
        }
        i = i + 1;
    }
    match found {
        Some(k) => ToolLookup::Unique(k),
        None => ToolLookup::Missing,
    }
}

/// Whether a call of `name` runs alongside other calls, computed.
pub fn is_concurrent_call(tools: &Vec<ToolDefinition>, name: &str) -> (r: bool)
    ensures
        r == runs_concurrently(tools@, name@),
{
    let mut i: usize = 0;
    while i < tools.len()
        invariant
            i <= tools@.len(),
            forall|j: int| 0 <= j < i ==> tools@[j].name@ != name@,
        decreases tools@.len() - i,
    {
        if crate::json::same_text(tools[i].name.as_str(), name) {
            proof {
                assert(is_first_named(tools@, name@, i as int));
                if runs_concurrently(tools@, name@) {
                    let w = choose|w: int| is_first_named(tools@, name@, w) && tools@[w].concurrent;
                    if w < i {
                        assert(tools@[w].name@ != name@);
                    }
                    if w > i {
                        assert(tools@[i as int].name@ != name@);
                    }
                }
            }
            return tools[i].concurrent;
        }
        i = i + 1;
    }
    proof {
        if runs_concurrently(tools@, name@) {
            let w = choose|w: int| is_first_named(tools@, name@, w) && tools@[w].concurrent;
            assert(tools@[w].name@ != name@);
        }
    }
    false
}

/// Whether `list` holds, in increasing order, exactly the positions below `n`
/// for which `keep` holds.
pub open spec fn lists_positions(list: Seq<usize>, n: nat, keep: spec_fn(int) -> bool) -> bool {
    &&& forall|k: int| 0 <= k < list.len() ==> list[k] < n && keep(list[k] as int)
    &&& forall|k: int, l: int| 0 <= k < l < list.len() ==> list[k] < list[l]
    &&& forall|i: int| 0 <= i < n && #[trigger] keep(i) ==> listed(list, i)
}

/// Splits the calls into those that run concurrently and those that run one at
/// a time, in order: a call runs concurrently when the first tool of its name is
/// marked concurrent, and sequentially otherwise (also when no tool has its
/// name). Each list holds positions into `calls`, in increasing order.
pub fn schedule_tool_calls(tools: &Vec<ToolDefinition>, calls: &Vec<ToolCall>) -> (r: (
    Vec<usize>,
    Vec<usize>,
))
    ensures
        lists_positions(
            r.0@,
            calls@.len(),
            |i: int| runs_concurrently(tools@, calls@[i].name@),
        ),
        lists_positions(
            r.1@,
            calls@.len(),
            |i: int| !runs_concurrently(tools@, calls@[i].name@),
        ),
{
    let ghost conc_pred = |i: int| runs_concurrently(tools@, calls@[i].name@);
    let ghost seq_pred = |i: int| !runs_concurrently(tools@, calls@[i].name@);
    let mut concurrent: Vec<usize> = Vec::new();
    let mut sequential: Vec<usize> = Vec::new();
    let mut i: usize = 0;
    while i < calls.len()
        invariant
            i <= calls@.len(),
            conc_pred == (|i: int| runs_concurrently(tools@, calls@[i].name@)),
            seq_pred == (|i: int| !runs_concurrently(tools@, calls@[i].name@)),
            lists_positions(concurrent@, i as nat, conc_pred),
            lists_positions(sequential@, i as nat, seq_pred),
        decreases calls@.len() - i,
    {
        let ghost old_conc = concurrent@;
        let ghost old_seq = sequential@;
        let c = is_concurrent_call(tools, calls[i].name.as_str());
        if c {
            concurrent.push(i);
        } else {
            sequential.push(i);
        }
        proof {
            assert(conc_pred(i as int) == c);
            assert(seq_pred(i as int) == !c);
            assert forall|j: int| 0 <= j < i + 1 && #[trigger] conc_pred(j) implies listed(concurrent@, j) by {
                if j < i {
                    assert(listed(old_conc, j));
                    let k = choose|k: int| 0 <= k < old_conc.len() && old_conc[k] == j;
                    assert(concurrent@[k] == j);
                } else {
                    assert(concurrent@[concurrent@.len() - 1] == j);
                }
            }
            assert forall|j: int| 0 <= j < i + 1 && #[trigger] seq_pred(j) implies listed(sequential@, j) by {
                if j < i {
                    assert(listed(old_seq, j));
                    let k = choose|k: int| 0 <= k < old_seq.len() && old_seq[k] == j;
                    assert(sequential@[k] == j);
                } else {
                    assert(sequential@[sequential@.len() - 1] == j);
                }
            }
        }
        i = i + 1;
    }
    (concurrent, sequential)
}

/// Whether `i` is one of the positions in `list`.
pub open spec fn listed(list: Seq<usize>, i: int) -> bool {
    exists|k: int| 0 <= k < list.len() && list[k] == i
}

/// The position in `list` that holds `i`, if one does.
fn position_of(list: &Vec<usize>, i: usize) -> (r: Option<usize>)
    ensures
        r matches Some(k) ==> k < list@.len() && list@[k as int] == i,
        r is None ==> forall|k: int| 0 <= k < list@.len() ==> list@[k] != i,
{
    let mut k: usize = 0;
    while k < list.len()
        invariant
            k <= list@.len(),
            forall|j: int| 0 <= j < k ==> list@[j] != i,
        decreases list@.len() - k,
    {
        if list[k] == i {
            return Some(k);
        }
        k = k + 1;
    }
    None
}

/// Puts the results of the concurrent and the sequential calls back in the
/// order the calls were made: the result for `concurrent[k]` is
/// `concurrent_results[k]`, and likewise for the sequential ones.
pub fn merge_in_call_order(
    n: usize,
    concurrent: &Vec<usize>,
    concurrent_results: &Vec<ToolResult>,
    sequential: &Vec<usize>,
    sequential_results: &Vec<ToolResult>,
) -> (r: Vec<ToolResult>)
    requires
        concurrent_results@.len() == concurrent@.len(),
        sequential_results@.len() == sequential@.len(),
        forall|i: int|
            0 <= i < n ==> #[trigger] listed(concurrent@, i) || listed(sequential@, i),
        forall|k: int, l: int|
            0 <= k < concurrent@.len() && 0 <= l < sequential@.len() ==> concurrent@[k]
                != sequential@[l],
        forall|k: int, l: int|
            0 <= k < l < concurrent@.len() ==> concurrent@[k] != concurrent@[l],
        forall|k: int, l: int|
            0 <= k < l < sequential@.len() ==> sequential@[k] != sequential@[l],
        forall|k: int| 0 <= k < concurrent@.len() ==> concurrent@[k] < n,
        forall|k: int| 0 <= k < sequential@.len() ==> sequential@[k] < n,
    ensures
        r@.len() == n,
        forall|k: int|
            0 <= k < concurrent@.len() ==> #[trigger] r@[concurrent@[k] as int].deep_view()
                == concurrent_results@[k].deep_view(),
        forall|k: int|
            0 <= k < sequential@.len() ==> #[trigger] r@[sequential@[k] as int].deep_view()
                == sequential_results@[k].deep_view(),
{
    let mut out: Vec<ToolResult> = Vec::new();
    let mut i: usize = 0;
    while i < n
        invariant
            i <= n,
            out@.len() == i,
            concurrent_results@.len() == concurrent@.len(),
            sequential_results@.len() == sequential@.len(),
            forall|i: int| 0 <= i < n ==> #[trigger] listed(concurrent@, i) || listed(sequential@, i),
            forall|k: int, l: int|
                0 <= k < concurrent@.len() && 0 <= l < sequential@.len() ==> concurrent@[k]
                    != sequential@[l],
            forall|k: int, l: int|
                0 <= k < l < concurrent@.len() ==> concurrent@[k] != concurrent@[l],
            forall|k: int, l: int|
                0 <= k < l < sequential@.len() ==> sequential@[k] != sequential@[l],
            forall|k: int|
                0 <= k < concurrent@.len() && concurrent@[k] < i ==> #[trigger] out@[concurrent@[k] as int].deep_view()
                    == concurrent_results@[k].deep_view(),
            forall|k: int|
                0 <= k < sequential@.len() && sequential@[k] < i ==> #[trigger] out@[sequential@[k] as int].deep_view()
                    == sequential_results@[k].deep_view(),
        decreases n - i,
    {
        let ghost before = out@;
        match position_of(concurrent, i) {
            Some(k) => {
                out.push(concurrent_results[k].copy());
                proof {
                    assert forall|k2: int|
                        0 <= k2 < concurrent@.len() && concurrent@[k2] < i + 1 implies #[trigger] out@[concurrent@[k2] as int].deep_view()
                        == concurrent_results@[k2].deep_view() by {
                        if concurrent@[k2] < i {
                            assert(out@[concurrent@[k2] as int] == before[concurrent@[k2] as int]);
                        } else if k2 != k {
                            if k2 < k {
                                assert(concurrent@[k2] != concurrent@[k as int]);
                            } else {
                                assert(concurrent@[k as int] != concurrent@[k2]);
                            }
                        }
                    }
                    assert forall|l: int|
                        0 <= l < sequential@.len() && sequential@[l] < i + 1 implies #[trigger] out@[sequential@[l] as int].deep_view()
                        == sequential_results@[l].deep_view() by {
                        assert(concurrent@[k as int] != sequential@[l]);
                        assert(out@[sequential@[l] as int] == before[sequential@[l] as int]);
                    }
                }
            },
            None => {
                proof {
                    assert(listed(concurrent@, i as int) || listed(sequential@, i as int));
                }
                let s = position_of(sequential, i);
                let k = s.unwrap();
                out.push(sequential_results[k].copy());
                proof {
                    assert forall|l: int|
                        0 <= l < sequential@.len() && sequential@[l] < i + 1 implies #[trigger] out@[sequential@[l] as int].deep_view()
                        == sequential_results@[l].deep_view() by {
                        if sequential@[l] < i {
                            assert(out@[sequential@[l] as int] == before[sequential@[l] as int]);
                        } else if l != k {
                            if l < k {
                                assert(sequential@[l] != sequential@[k as int]);
                            } else {
                                assert(sequential@[k as int] != sequential@[l]);
                            }
                        }
                    }
                    assert forall|k2: int|
                        0 <= k2 < concurrent@.len() && concurrent@[k2] < i + 1 implies #[trigger] out@[concurrent@[k2] as int].deep_view()
                        == concurrent_results@[k2].deep_view() by {
                        assert(concurrent@[k2] != i);
                        assert(out@[concurrent@[k2] as int] == before[concurrent@[k2] as int]);
                    }
                }
            },
        }
        i = i + 1;
    }
    out
}

/// The outcome for a call whose name does not resolve to exactly one tool:
/// an error naming the tool when none or several have that name, and nothing
/// when exactly one does (that tool then runs).
pub fn unresolved_outcome(name: &str, lookup: ToolLookup) -> (r: Option<ToolOutcome>)
    ensures
        lookup is Unique <==> r is None,
        lookup is Missing ==> (r matches Some(ToolOutcome::Error(m)) && m@ == not_found_text(name@)),
        lookup is Ambiguous ==> (r matches Some(ToolOutcome::Error(m)) && m@ == multiple_found_text(name@)),
{
    match lookup {
        ToolLookup::Missing => {
            let e = ToolError::NotFound { name: crate::schema::owned(name) };
            Some(ToolOutcome::Error(e.to_message()))
        },
        ToolLookup::Ambiguous => {
            let e = ToolError::MultipleFound { name: crate::schema::owned(name) };
            Some(ToolOutcome::Error(e.to_message()))
        },
        ToolLookup::Unique(_) => None,
    }
}

/// The outcome of a tool that ran: its output, or its error's text.
pub fn call_outcome(result: Result<ToolOutput, ToolError>) -> (r: ToolOutcome)
    ensures
        result matches Ok(o) ==> r == ToolOutcome::Output(o),
        result matches Err(e) ==> r matches ToolOutcome::Error(m) && m@ == tool_error_text(e),
{
    match result {
        Ok(o) => ToolOutcome::Output(o),
        Err(e) => ToolOutcome::Error(e.to_message()),
    }
}

/// The result reported for `call`: its id, tool name and arguments, with
/// `outcome`.
pub fn tool_result(call: &ToolCall, outcome: ToolOutcome) -> (r: ToolResult)
    ensures
        r.tool_call_id@ == call.id@,
        r.tool_name@ == call.name@,
        r.args.tree() == call.arguments.tree(),
        r.result == outcome,
{
    ToolResult {
        tool_call_id: call.id.clone(),
        tool_name: call.name.clone(),
        args: call.arguments.copy(),
        result: outcome,
    }
}

/// Whether a round trip asked for tools: it stopped for tool calls and named
/// at least one.
pub open spec fn asks_for_tools(step: Step) -> bool {
    step.finish_reason == FinishReason::ToolCalls && step.tool_calls@.len() > 0
}

/// Whether the loop ends after the round trip `step`, given the round trips
/// before it: when the reply asks for no tools, or the request's round-trip
/// limit is reached. Streamed and non-streamed requests end by this same
/// rule.
pub open spec fn ends_after(request: TextRequest, before: Seq<Step>, step: Step) -> bool {
    !asks_for_tools(step) || before.len() + 1 >= request.max_steps
}

/// The request fields the loop never changes.
pub open spec fn same_settings(a: TextRequest, b: TextRequest) -> bool {
    &&& a.model == b.model
    &&& a.system_prompts == b.system_prompts
    &&& a.max_tokens == b.max_tokens
    &&& a.temperature == b.temperature
    &&& a.top_p == b.top_p
    &&& a.max_steps == b.max_steps
    &&& a.tools == b.tools
    &&& a.cache_system_prompt == b.cache_system_prompt
    &&& a.provider_options == b.provider_options
    &&& a.provider_tools == b.provider_tools
}

/// The state of a text request between round trips: the request as it will be
/// sent next, and the round trips so far.
#[derive(Debug)]
pub struct TextLoop {
    pub request: TextRequest,
    pub steps: Vec<Step>,
}

/// What the loop does after a round trip.
#[derive(Debug)]
pub enum LoopTurn {
    /// The request is complete.
    Finished(TextResponse),
    /// The model asked for tools; run them and resume.
    CallTools(PendingTools),
}

/// A loop waiting for the results of the tool calls its last round trip asked
/// for.
#[derive(Debug)]
pub struct PendingTools {
    pub state: TextLoop,
    /// The last round trip's reply text.
    pub text: Option<String>,
    /// The tool calls to run, in the order the model asked for them.
    pub calls: Vec<ToolCall>,
}

impl TextLoop {
    /// Whether the loop can take another round trip: fewer round trips so far
    /// than the request allows (or none yet), and their token counts fit.
    pub open spec fn wf(self) -> bool {
        &&& (self.steps@.len() == 0 || self.steps@.len() < self.request.max_steps)
        &&& usage_fits(self.steps@)
    }

    /// A loop that has not sent anything yet.
    pub fn start(request: TextRequest) -> (r: TextLoop)
        ensures
            r.request == request,
            r.steps@.len() == 0,
            r.wf(),
    {
        TextLoop { request, steps: Vec::new() }
    }

    /// Whether the token counts still fit once `step` is added. The loop sums
    /// token counts in `u32`, so a round trip that would overflow them cannot be
    /// taken.
    pub fn can_accept(&self, step: &Step) -> (r: bool)
        ensures
            r == usage_fits(self.steps@.push(*step)),
    {
        fits_with(&self.steps, step.usage)
    }

    /// Takes the reply of one round trip. The loop finishes when the reply asks
    /// for no tools or the request's round-trip limit is reached; otherwise the
    /// reply's tool calls are handed back to be run.
    pub fn after_step(self, step: Step) -> (r: LoopTurn)
        requires
            self.wf(),
            usage_fits(self.steps@.push(step)),
        ensures
            ends_after(self.request, self.steps@, step) ==> (r matches LoopTurn::Finished(resp)
                && folds_steps(resp, self.steps@.push(step))),
            !ends_after(self.request, self.steps@, step) ==> (r matches LoopTurn::CallTools(p) && {
                &&& p.state.request == self.request
                &&& p.state.steps@ == self.steps@.push(step)
                &&& p.text == step.text
                &&& p.calls.deep_view() == step.tool_calls.deep_view()
                &&& p.state.wf()
            }),
    {
        let has_tool_calls = step.finish_reason == FinishReason::ToolCalls && step.tool_calls.len()
            > 0;
        let calls = copy_tool_calls(&step.tool_calls);
        let text = copy_opt(&step.text);
        let ghost old_steps = self.steps@;
        let TextLoop { request, mut steps } = self;
        steps.push(step);
        assert(steps@ == old_steps.push(step));
        let count = steps.len();
        if !has_tool_calls || count as u64 >= request.max_steps as u64 {
            LoopTurn::Finished(TextResponse::from_steps(steps))
        } else {
            LoopTurn::CallTools(PendingTools { state: TextLoop { request, steps }, text, calls })
        }
    }
}

/// Whether the token counts of `steps` still fit once any step that used
/// `usage` is added.
pub fn fits_with(steps: &Vec<Step>, usage: Usage) -> (r: bool)
    ensures
        forall|s: Step| s.usage == usage ==> r == usage_fits(#[trigger] steps@.push(s)),
{
    let mut all: Vec<Step> = Vec::new();
    let mut i: usize = 0;
    while i < steps.len()
        invariant
            i <= steps@.len(),
            all@.len() == i,
            forall|j: int| 0 <= j < i ==> (#[trigger] all@[j]).usage == steps@[j].usage,
        decreases steps@.len() - i,
    {
        all.push(usage_only(steps[i].usage));
        i = i + 1;
    }
    all.push(usage_only(usage));
    let r = steps_usage_fits(&all);
    proof {
        assert forall|s: Step| s.usage == usage implies r == usage_fits(#[trigger] steps@.push(s)) by {
            lemma_same_usage_same_totals(all@, steps@.push(s));
        }
    }
    r
}

/// A step that carries only `usage`.
fn usage_only(usage: Usage) -> (r: Step)
    ensures
        r.usage == usage,
{
    Step {
        text: None,
        tool_calls: Vec::new(),
        finish_reason: FinishReason::Stop,
        usage,
        meta: crate::value_objects::Meta::empty(),
    }
}

/// Two lists of steps with the same usage, step for step, have the same totals.
pub(crate) proof fn lemma_same_usage_same_totals(a: Seq<Step>, b: Seq<Step>)
    requires
        a.len() == b.len(),
        forall|j: int| 0 <= j < a.len() ==> (#[trigger] a[j]).usage == b[j].usage,
    ensures
        crate::text::total_prompt_tokens(a) == crate::text::total_prompt_tokens(b),
        crate::text::total_completion_tokens(a) == crate::text::total_completion_tokens(b),
    decreases a.len(),
{
    if a.len() > 0 {
        lemma_same_usage_same_totals(a.drop_last(), b.drop_last());
    }
}

impl PendingTools {
    /// Continues the loop with the results of the tool calls: the conversation
    /// gains the assistant's turn (its text and tool calls) and then the
    /// results, and the tool choice goes back to `Auto` -- a forced tool choice
    /// holds for one round trip only, or the model could never answer in plain
    /// text.
    pub fn resume(self, results: Vec<ToolResult>) -> (r: TextLoop)
        requires
            self.state.wf(),
        ensures
            r.wf(),
            r.steps == self.state.steps,
            same_settings(r.request, self.state.request),
            r.request.tool_choice is Auto,
            r.request.messages@ == self.state.request.messages@.push(
                Message::Assistant(AssistantMessage { content: self.text, tool_calls: self.calls }),
            ).push(Message::ToolResult(ToolResultMessage { tool_results: results })),
    {
        let PendingTools { state, text, calls } = self;
        let TextLoop { mut request, steps } = state;
        request.messages.push(Message::Assistant(AssistantMessage { content: text, tool_calls: calls }));
        request.messages.push(Message::ToolResult(ToolResultMessage { tool_results: results }));
        request.tool_choice = ToolChoice::Auto;
        TextLoop { request, steps }
    }
}

} // verus!
