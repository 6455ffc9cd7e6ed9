//! The multi-step tool-calling loop for streaming text generation, as a state
//! machine: the streaming counterpart of [`crate::tool_loop`].
//!
//! The caller streams one round trip of [`StreamLoop::request`] from the
//! provider, shows each event to [`StreamLoop::observe`] and passes it on, then
//! calls [`StreamLoop::end_round`]. That either yields the final
//! [`StreamEvent::StreamEnd`], or the tool calls to run; their results go to
//! [`PendingStreamTools::resume`], which gives back the events to pass on and
//! the loop for the next round trip.

use vstd::prelude::*;

use crate::json::JsonTree;
use crate::stream_event::StreamEvent;
use crate::text::{folds_steps, usage_fits, Step, TextRequest, ToolChoice};
use crate::tool_loop::{ends_after, fits_with, same_settings};
use crate::value_objects::{
    copy_tool_calls, AssistantMessage, FinishReason, Message, Meta, RateLimit, ToolCall,
    ToolResult, ToolResultMessage, Usage,
};

verus! {

/// The state of a streamed text request: the request as it will be sent next,
/// the round trips so far, and what the current round trip has streamed.
#[derive(Debug)]
pub struct StreamLoop {
    pub request: TextRequest,
    pub steps: Vec<Step>,
    /// The reply text streamed so far in this round trip.
    pub text: String,
    /// The complete tool calls streamed so far in this round trip.
    pub tool_calls: Vec<ToolCall>,
    /// The usage reported for this round trip (zero until reported).
    pub usage: Usage,
    /// The finish reason reported for this round trip (`Stop` until reported).
    pub finish_reason: FinishReason,
    /// The metadata reported for this round trip (empty until reported).
    pub meta: Meta,
}

/// The step a round trip amounts to: its text (none when nothing was
/// streamed), tool calls, finish reason, usage and metadata.
pub open spec fn round_step(s: StreamLoop) -> Step {
    Step {
        text: if s.text@.len() == 0 {
            None
        } else {
            Some(s.text)
        },
        tool_calls: s.tool_calls,
        finish_reason: s.finish_reason,
        usage: s.usage,
        meta: s.meta,
    }
}

/// Whether `s` is at the start of a round trip: nothing streamed yet.
pub open spec fn fresh_round(s: StreamLoop) -> bool {
    &&& s.text@.len() == 0
    &&& s.tool_calls@.len() == 0
    &&& s.usage == Usage::spec_zero()
    &&& s.finish_reason == FinishReason::Stop
    &&& s.meta.id is None
    &&& s.meta.model is None
    &&& s.meta.rate_limits@.len() == 0
}

/// What a round trip has streamed, as values: the text, the tool calls, the
/// usage, the finish reason, and the metadata's id, model and rate limits.
pub type RoundView = (
    Seq<char>,
    Seq<(Seq<char>, Seq<char>, JsonTree)>,
    Usage,
    FinishReason,
    Option<String>,
    Option<String>,
    Seq<RateLimit>,
);

/// The values of what the current round trip of `s` has streamed.
pub open spec fn round_view(s: StreamLoop) -> RoundView {
    (
        s.text@,
        s.tool_calls.deep_view(),
        s.usage,
        s.finish_reason,
        s.meta.id,
        s.meta.model,
        s.meta.rate_limits@,
    )
}

/// Nothing streamed: the view of a fresh round.
pub open spec fn fresh_view() -> RoundView {
    (Seq::empty(), Seq::empty(), Usage::spec_zero(), FinishReason::Stop, None, None, Seq::empty())
}

/// What one event does to what a round trip has streamed.
pub open spec fn observe_view(v: RoundView, event: StreamEvent) -> RoundView {
    match event {
        StreamEvent::StreamStart { meta } => (v.0, v.1, v.2, v.3, meta.id, meta.model, meta.rate_limits@),
        StreamEvent::TextDelta { text } => (v.0 + text@, v.1, v.2, v.3, v.4, v.5, v.6),
        StreamEvent::ToolCall(c) => (v.0, v.1.push(c.deep_view()), v.2, v.3, v.4, v.5, v.6),
        StreamEvent::StepFinish { usage, finish_reason } => (v.0, v.1, usage, finish_reason, v.4, v.5, v.6),
        _ => v,
    }
}

/// What a round trip has streamed after the events `evs`, in order, starting
/// from `v`.
pub open spec fn observe_all(v: RoundView, evs: Seq<StreamEvent>) -> RoundView
    decreases evs.len(),
{
    if evs.len() == 0 {
        v
    } else {
        observe_view(observe_all(v, evs.drop_last()), evs.last())
    }
}

/// What the loop does once a round trip has been streamed.
#[derive(Debug)]
pub enum StreamTurn {
    /// The request is complete; this is the closing
    /// [`StreamEvent::StreamEnd`].
    Finished(StreamEvent),
    /// The model asked for tools; run them and resume.
    CallTools(PendingStreamTools),
}

/// A streaming loop waiting for the results of the tool calls its last round
/// trip asked for.
#[derive(Debug)]
pub struct PendingStreamTools {
    /// The loop, already at the start of the next round trip.
    pub state: StreamLoop,
    /// The last round trip's reply text.
    pub text: Option<String>,
    /// The tool calls to run, in the order they arrived.
    pub calls: Vec<ToolCall>,
}

impl StreamLoop {
    /// Whether the loop can stream another round trip: fewer round trips so
    /// far than the request allows (or none yet), and their token counts fit.
    pub open spec fn wf(self) -> bool {
        &&& (self.steps@.len() == 0 || self.steps@.len() < self.request.max_steps)
        &&& usage_fits(self.steps@)
    }

    /// A loop that has not streamed anything yet.
    pub fn start(request: TextRequest) -> (r: StreamLoop)
        ensures
            r.request == request,
            r.steps@.len() == 0,
            fresh_round(r),
            round_view(r) == fresh_view(),
            r.wf(),
    {
        StreamLoop {
            request,
            steps: Vec::new(),
            text: String::new(),
            tool_calls: Vec::new(),
            usage: Usage::zero(),
            finish_reason: FinishReason::Stop,
            meta: Meta::empty(),
        }
    }

    /// Records one event of the current round trip: `StreamStart` sets the
    /// metadata, `TextDelta` appends to the text, `ToolCall` adds a tool call,
    /// and `StepFinish` sets the usage and finish reason. Every other event
    /// changes nothing.
    pub fn observe(&mut self, event: &StreamEvent)
        ensures
            final(self).request == old(self).request,
            final(self).steps == old(self).steps,
            event matches StreamEvent::StreamStart { meta } ==> final(self).meta.id == meta.id
                && final(self).meta.model == meta.model && final(self).meta.rate_limits@
                == meta.rate_limits@,
            !(event is StreamStart) ==> final(self).meta == old(self).meta,
            event matches StreamEvent::TextDelta { text } ==> final(self).text@ == old(self).text@
                + text@,
            !(event is TextDelta) ==> final(self).text == old(self).text,
            event matches StreamEvent::ToolCall(c) ==> final(self).tool_calls.deep_view()
                == old(self).tool_calls.deep_view().push(c.deep_view()),
            !(event is ToolCall) ==> final(self).tool_calls == old(self).tool_calls,
            event matches StreamEvent::StepFinish { usage, finish_reason } ==> final(self).usage
                == usage && final(self).finish_reason == finish_reason,
            !(event is StepFinish) ==> final(self).usage == old(self).usage
                && final(self).finish_reason == old(self).finish_reason,
            round_view(*final(self)) == observe_view(round_view(*old(self)), *event),
    {
        match event {
            StreamEvent::StreamStart { meta } => {
                self.meta = meta.copy();
            },
            StreamEvent::TextDelta { text } => {
                self.text.append(text.as_str());
            },
            StreamEvent::ToolCall(call) => {
                let ghost before = self.tool_calls.deep_view();
                self.tool_calls.push(call.copy());
                assert(self.tool_calls.deep_view() =~= before.push(call.deep_view()));
            },
            StreamEvent::StepFinish { usage, finish_reason } => {
                self.usage = *usage;
                self.finish_reason = *finish_reason;
            },
            _ => {},
        }
    }

    /// Whether the token counts still fit once the current round trip is
    /// added; the loop sums them in `u32`.
    pub fn can_end_round(&self) -> (r: bool)
        ensures
            r == usage_fits(self.steps@.push(round_step(*self))),
    {
        fits_with(&self.steps, self.usage)
    }

    /// Closes the current round trip. The loop finishes -- with the closing
    /// `StreamEnd` event -- when the round trip asked for no tools or the
    /// request's round-trip limit is reached; otherwise the round trip's tool
    /// calls are handed back to be run, and the loop moves to a fresh round.
    pub fn end_round(self) -> (r: StreamTurn)
        requires
            self.wf(),
            usage_fits(self.steps@.push(round_step(self))),
        ensures
            ends_after(self.request, self.steps@, round_step(self)) ==> (r matches StreamTurn::Finished(
                StreamEvent::StreamEnd { response },
            ) && folds_steps(response, self.steps@.push(round_step(self)))),
            !ends_after(self.request, self.steps@, round_step(self)) ==> (r matches StreamTurn::CallTools(p) && {
                &&& p.state.request == self.request
                &&& p.state.steps@ == self.steps@.push(round_step(self))
                &&& fresh_round(p.state)
                &&& p.text == round_step(self).text
                &&& p.calls.deep_view() == self.tool_calls.deep_view()
                &&& p.state.wf()
            }),
    {
        let ghost step_model = round_step(self);
        let ghost old_steps = self.steps@;
        let StreamLoop { request, mut steps, text, tool_calls, usage, finish_reason, meta } = self;
        let has_tool_calls = finish_reason == FinishReason::ToolCalls && tool_calls.len() > 0;
        let calls = copy_tool_calls(&tool_calls);
        let step_text = if text.as_str().is_empty() {
            None
        } else {
            Some(text)
        };
        let last_text = crate::value_objects::copy_opt(&step_text);
        let step = Step { text: step_text, tool_calls, finish_reason, usage, meta };
        assert(step == step_model);
        steps.push(step);
        assert(steps@ == old_steps.push(step_model));
        let count = steps.len();
        if !has_tool_calls || count as u64 >= request.max_steps as u64 {
            let response = crate::text::TextResponse::from_steps(steps);
            StreamTurn::Finished(StreamEvent::StreamEnd { response })
        } else {
            let state = StreamLoop {
                request,
                steps,
                text: String::new(),
                tool_calls: Vec::new(),
                usage: Usage::zero(),
                finish_reason: FinishReason::Stop,
                meta: Meta::empty(),
            };
            StreamTurn::CallTools(PendingStreamTools { state, text: last_text, calls })
        }
    }
}

/// What a round trip amounts to, as values: its text (empty when it has
/// none), tool calls, usage, finish reason and metadata.
pub open spec fn step_view(step: Step) -> RoundView {
    (
        match step.text {
            Some(x) => x@,
            None => Seq::empty(),
        },
        step.tool_calls.deep_view(),
        step.usage,
        step.finish_reason,
        step.meta.id,
        step.meta.model,
        step.meta.rate_limits@,
    )
}

/// The characters of a reply text, if there is one.
pub open spec fn text_view(text: Option<String>) -> Option<Seq<char>> {
    match text {
        Some(t) => Some(t@),
        None => None,
    }
}

/// Whether two round trips are the same reply: the same values, and text
/// present in both or in neither.
pub open spec fn same_reply(a: Step, b: Step) -> bool {
    step_view(a) == step_view(b) && text_view(a.text) == text_view(b.text)
}

/// Whether a reply carries text that is empty (a provider reports no text
/// as none).
pub open spec fn has_empty_text(step: Step) -> bool {
    step.text matches Some(t) && t@.len() == 0
}

/// A round trip whose events, watched from the start of a round, show what a
/// non-streamed round trip would have returned amounts to that same reply.
pub proof fn law_streamed_round_is_the_reply(s: StreamLoop, events: Seq<StreamEvent>, reply: Step)
    requires
        round_view(s) == observe_all(fresh_view(), events),
        observe_all(fresh_view(), events) == step_view(reply),
        !has_empty_text(reply),
    ensures
        same_reply(round_step(s), reply),
{
}

/// A streamed request ends with the same result a non-streamed request
/// returns, given the same replies. When every round trip of the stream
/// shows, through its events, the reply the non-streamed call received in
/// that round: both loops end after the same round trip (the rule that ends
/// them gives the same answer at every round), and the closing responses
/// have the same text, finish reason, usage and round trips.
pub proof fn law_stream_end_matches_generate(
    request: TextRequest,
    rounds: Seq<StreamLoop>,
    events: Seq<Seq<StreamEvent>>,
    replies: Seq<Step>,
    streamed: crate::text::TextResponse,
    generated: crate::text::TextResponse,
)
    requires
        rounds.len() == events.len(),
        events.len() == replies.len(),
        forall|k: int|
            0 <= k < rounds.len() ==> round_view(#[trigger] rounds[k]) == observe_all(
                fresh_view(),
                events[k],
            ),
        forall|k: int|
            0 <= k < rounds.len() ==> observe_all(fresh_view(), #[trigger] events[k]) == step_view(
                replies[k],
            ),
        forall|k: int| 0 <= k < rounds.len() ==> !has_empty_text(#[trigger] replies[k]),
        folds_steps(streamed, Seq::new(rounds.len(), |k: int| round_step(rounds[k]))),
        folds_steps(generated, replies),
    ensures
        forall|k: int|
            0 <= k < rounds.len() ==> ends_after(
                request,
                streamed.steps@.take(k),
                #[trigger] streamed.steps@[k],
            ) == ends_after(request, replies.take(k), replies[k]),
        text_view(streamed.text) == text_view(generated.text),
        streamed.finish_reason == generated.finish_reason,
        streamed.usage == generated.usage,
        streamed.steps@.len() == generated.steps@.len(),
        forall|k: int|
            0 <= k < streamed.steps@.len() ==> same_reply(
                #[trigger] streamed.steps@[k],
                generated.steps@[k],
            ),
{
    let steps = Seq::new(rounds.len(), |k: int| round_step(rounds[k]));
    assert forall|k: int| 0 <= k < rounds.len() implies same_reply(#[trigger] steps[k], replies[k]) by {
        assert(round_view(rounds[k]) == observe_all(fresh_view(), events[k]));
        assert(observe_all(fresh_view(), events[k]) == step_view(replies[k]));
        assert(!has_empty_text(replies[k]));
        law_streamed_round_is_the_reply(rounds[k], events[k], replies[k]);
    }
    assert forall|k: int| 0 <= k < steps.len() implies (#[trigger] steps[k]).usage == replies[k].usage by {
        assert(same_reply(steps[k], replies[k]));
    }
    crate::tool_loop::lemma_same_usage_same_totals(steps, replies);
    assert(same_reply(steps[steps.len() - 1], replies[replies.len() - 1]));
    assert forall|k: int|
        0 <= k < rounds.len() implies ends_after(
            request,
            streamed.steps@.take(k),
            #[trigger] streamed.steps@[k],
        ) == ends_after(request, replies.take(k), replies[k]) by {
        assert(same_reply(steps[k], replies[k]));
        assert(steps[k].tool_calls.deep_view().len() == steps[k].tool_calls@.len());
        assert(replies[k].tool_calls.deep_view().len() == replies[k].tool_calls@.len());
    }
}

impl PendingStreamTools {
    /// Continues the loop with the results of the tool calls. Gives back one
    /// `ToolResult` event per result, in order, to pass on; the conversation
    /// gains the assistant's turn and then the results, and the tool choice
    /// goes back to `Auto`.
    pub fn resume(self, results: Vec<ToolResult>) -> (r: (StreamLoop, Vec<StreamEvent>))
        requires
            self.state.wf(),
        ensures
            r.0.wf(),
            r.0.steps == self.state.steps,
            fresh_round(r.0) == fresh_round(self.state),
            same_settings(r.0.request, self.state.request),
            r.0.request.tool_choice is Auto,
            r.0.request.messages@ == self.state.request.messages@.push(
                Message::Assistant(AssistantMessage { content: self.text, tool_calls: self.calls }),
            ).push(Message::ToolResult(ToolResultMessage { tool_results: results })),
            r.1@.len() == results@.len(),
            forall|i: int|
                0 <= i < results@.len() ==> (#[trigger] r.1@[i] matches StreamEvent::ToolResult(t)
                    && t.deep_view() == results@[i].deep_view()),
    {
        let mut events: Vec<StreamEvent> = Vec::new();
        let mut i: usize = 0;
        while i < results.len()
            invariant
                i <= results@.len(),
                events@.len() == i,
                forall|j: int|
                    0 <= j < i ==> (#[trigger] events@[j] matches StreamEvent::ToolResult(t)
                        && t.deep_view() == results@[j].deep_view()),
            decreases results@.len() - i,
        {
            events.push(StreamEvent::ToolResult(results[i].copy()));
            i = i + 1;
        }
        let PendingStreamTools { state, text, calls } = self;
        let StreamLoop { mut request, steps, text: round_text, tool_calls, usage, finish_reason, meta } =
            state;
        request.messages.push(Message::Assistant(AssistantMessage { content: text, tool_calls: calls }));
        request.messages.push(Message::ToolResult(ToolResultMessage { tool_results: results }));
        request.tool_choice = ToolChoice::Auto;
        (
            StreamLoop {
                request,
                steps,
                text: round_text,
                tool_calls,
                usage,
                finish_reason,
                meta,
            },
            events,
        )
    }
}

} // verus!
