//! Decoding a streamed (`streamGenerateContent?alt=sse`) reply, one chunk at a
//! time, into [`StreamEvent`]s.
//!
//! The caller reads the server-sent events, skips blank ones, decodes each
//! `data:` payload as a [`GenerateContentResponse`] and hands it to
//! [`GeminiStream::observe_chunk`], passing on the events it returns; once the
//! stream ends, [`GeminiStream::finish`] gives the closing `StepFinish`.
//!
//! Unlike OpenAI, Gemini sends each function call complete, so a call is
//! reported as one `ToolCallDelta` carrying all of its arguments, immediately
//! followed by its `ToolCall`.

use vstd::prelude::*;

use crate::json::{json_to_text, printed_json};
use crate::stream_event::StreamEvent;
use crate::value_objects::{FinishReason, Meta, ToolCall, Usage};

use super::maps::{
    call_id, call_id_text, finish_reason_of, map_finish_reason, map_usage, parts_calls, usage_of,
};
use super::wire::{Candidate, FunctionCallPart, GenerateContentResponse, Part};

verus! {

/// How many events a part produces: one for non-empty text, two for a
/// function call, none otherwise.
pub open spec fn part_event_count(p: Part) -> nat {
    match p {
        Part::Text { text } => if text@.len() > 0 {
            1
        } else {
            0
        },
        Part::FunctionCall { .. } => 2,
        _ => 0,
    }
}

/// Whether `evs` are the events of part `p`, when it is the `k`-th function
/// call of the round trip if it is one.
pub open spec fn one_part_events(p: Part, k: nat, evs: Seq<StreamEvent>) -> bool {
    match p {
        Part::Text { text } => if text@.len() > 0 {
            evs.len() == 1 && (evs[0] matches StreamEvent::TextDelta { text: t } && t == text)
        } else {
            evs.len() == 0
        },
        Part::FunctionCall { function_call } => {
            &&& evs.len() == 2
            &&& evs[0] matches StreamEvent::ToolCallDelta { index, id: Some(i), name: Some(n), arguments_delta }
                && index == k && i@ == call_id_text(k) && n@ == function_call.name@
                && arguments_delta@ == printed_json(function_call.args.tree())
            &&& evs[1] matches StreamEvent::ToolCall(c) && c.id@ == call_id_text(k) && c.name@
                == function_call.name@ && c.arguments.tree() == function_call.args.tree()
        },
        _ => evs.len() == 0,
    }
}

/// Whether `evs` are the events of `parts`, in order, numbering function
/// calls from `k0`.
pub open spec fn parts_events(parts: Seq<Part>, k0: nat, evs: Seq<StreamEvent>) -> bool
    decreases parts.len(),
{
    if parts.len() == 0 {
        evs.len() == 0
    } else {
        let n = evs.len() - part_event_count(parts.last());
        &&& 0 <= n
        &&& parts_events(parts.drop_last(), k0, evs.subrange(0, n))
        &&& one_part_events(
            parts.last(),
            k0 + parts_calls(parts.drop_last()).len(),
            evs.subrange(n, evs.len() as int),
        )
    }
}

/// The parts of a candidate's content (none when it has no content).
pub open spec fn candidate_parts(c: Candidate) -> Seq<Part> {
    match c.content {
        Some(content) => content.parts@,
        None => Seq::empty(),
    }
}

/// How many function calls a chunk carries.
pub open spec fn chunk_calls(chunk: GenerateContentResponse) -> nat {
    if chunk.candidates@.len() > 0 {
        parts_calls(candidate_parts(chunk.candidates@[0])).len()
    } else {
        0
    }
}

/// The state of one streamed round trip.
#[derive(Debug)]
pub struct GeminiStream {
    /// Whether the `StreamStart` event has been produced.
    pub meta_sent: bool,
    /// The finish reason so far: `ToolCalls` once a call arrived, otherwise
    /// the last one reported (`Stop` until one is).
    pub finish_reason: FinishReason,
    /// The usage reported so far (zero until a chunk carries it).
    pub usage: Usage,
    /// How many function calls have arrived.
    pub call_index: usize,
}

/// Extending the parts by one extends their events by that part's events.
proof fn lemma_parts_events_push(parts: Seq<Part>, k0: nat, evs: Seq<StreamEvent>, p: Part, seg: Seq<StreamEvent>)
    requires
        parts_events(parts, k0, evs),
        one_part_events(p, k0 + parts_calls(parts).len(), seg),
        seg.len() == part_event_count(p),
    ensures
        parts_events(parts.push(p), k0, evs + seg),
{
    let all = parts.push(p);
    assert(all.drop_last() =~= parts);
    let joined = evs + seg;
    assert(joined.subrange(0, evs.len() as int) =~= evs);
    assert(joined.subrange(evs.len() as int, joined.len() as int) =~= seg);
}

/// How many function calls a chunk carries, computed.
pub fn calls_in_chunk(chunk: &GenerateContentResponse) -> (r: usize)
    ensures
        r == chunk_calls(*chunk),
{
    if chunk.candidates.len() == 0 {
        return 0;
    }
    match &chunk.candidates[0].content {
        None => 0,
        Some(content) => {
            let ghost ps = content.parts@;
            let mut count: usize = 0;
            let mut i: usize = 0;
            while i < content.parts.len()
                invariant
                    ps == content.parts@,
                    i <= ps.len(),
                    count == parts_calls(ps.subrange(0, i as int)).len(),
                    count <= i,
                decreases ps.len() - i,
            {
                proof {
                    assert(ps.subrange(0, i + 1).drop_last() =~= ps.subrange(0, i as int));
                }
                if let Part::FunctionCall { .. } = &content.parts[i] {
                    count = count + 1;
                }
                i = i + 1;
            }
            assert(ps.subrange(0, ps.len() as int) =~= ps);
            count
        },
    }
}

impl GeminiStream {
    /// The state at the start of a round trip.
    pub fn new() -> (r: GeminiStream)
        ensures
            !r.meta_sent,
            r.finish_reason == FinishReason::Stop,
            r.usage == Usage::spec_zero(),
            r.call_index == 0,
    {
        GeminiStream {
            meta_sent: false,
            finish_reason: FinishReason::Stop,
            usage: Usage::zero(),
            call_index: 0,
        }
    }

    /// Reads one chunk of the stream. Gives back, in order: the `StreamStart`
    /// event (for the first chunk only, with the chunk's response id and model
    /// version), then the events of the first candidate's parts: a
    /// `TextDelta` for non-empty text, and for a function call a
    /// `ToolCallDelta` with its complete arguments followed by its `ToolCall`,
    /// calls being numbered `call_0`, `call_1`, ... across the round trip.
    /// Once a call has arrived the finish reason stays `ToolCalls`; otherwise
    /// a candidate's finish reason replaces the one so far. The chunk's usage,
    /// when present, replaces the one so far.
    pub fn observe_chunk(&mut self, chunk: GenerateContentResponse) -> (r: Vec<StreamEvent>)
        requires
            old(self).call_index + chunk_calls(chunk) <= usize::MAX,
        ensures
            final(self).meta_sent,
            final(self).call_index == old(self).call_index + chunk_calls(chunk),
            chunk.usage_metadata matches Some(u) ==> final(self).usage == usage_of(u),
            chunk.usage_metadata is None ==> final(self).usage == old(self).usage,
            ({
                let start = if old(self).meta_sent {
                    0int
                } else {
                    1int
                };
                &&& !old(self).meta_sent ==> (r@.len() > 0 && (r@[0] matches StreamEvent::StreamStart {
                    meta,
                } && meta.id == chunk.response_id && meta.model == chunk.model_version
                    && meta.rate_limits@.len() == 0))
                &&& chunk.candidates@.len() == 0 ==> {
                    &&& r@.len() == start
                    &&& final(self).finish_reason == old(self).finish_reason
                }
                &&& chunk.candidates@.len() > 0 ==> {
                    let cand = chunk.candidates@[0];
                    let calls = parts_calls(candidate_parts(cand)).len();
                    let fr = if old(self).finish_reason == FinishReason::ToolCalls || calls > 0 {
                        FinishReason::ToolCalls
                    } else {
                        match cand.finish_reason {
                            Some(x) => finish_reason_of(Some(x)),
                            None => old(self).finish_reason,
                        }
                    };
                    &&& r@.len() >= start
                    &&& parts_events(
                        candidate_parts(cand),
                        old(self).call_index as nat,
                        r@.subrange(start, r@.len() as int),
                    )
                    &&& final(self).finish_reason == fr
                }
            }),
    {
        let GenerateContentResponse { candidates, usage_metadata, model_version, response_id, .. } =
            chunk;
        let mut events: Vec<StreamEvent> = Vec::new();
        if !self.meta_sent {
            events.push(StreamEvent::StreamStart { meta: Meta::identified(response_id, model_version) });
            self.meta_sent = true;
        }
        let ghost start = events@.len();
        let ghost head = events@;
        let mut candidates = candidates;
        if candidates.len() > 0 {
            let ghost cand = candidates@[0];
            let Candidate { content, finish_reason } = candidates.remove(0);
            let ghost ps = candidate_parts(cand);
            let ghost k0 = self.call_index as nat;
            let mut parts: Vec<Part> = match content {
                Some(c) => c.parts,
                None => Vec::new(),
            };
            assert(parts@ == ps);
            let n = parts.len();
            let mut i: usize = 0;
            assert(ps.subrange(0, 0) =~= Seq::<Part>::empty());
            assert(events@.subrange(start as int, events@.len() as int) =~= Seq::<StreamEvent>::empty());
            assert(parts_calls(ps.subrange(0, 0)) =~= Seq::<FunctionCallPart>::empty());
            proof {
                lemma_calls_prefix(ps, ps.len() as int);
            }
            while i < n
                invariant
                    n == ps.len(),
                    i <= n,
                    parts@ == ps.subrange(i as int, n as int),
                    self.meta_sent,
                    self.call_index == k0 + parts_calls(ps.subrange(0, i as int)).len(),
                    k0 + parts_calls(ps).len() <= usize::MAX,
                    parts_calls(ps.subrange(0, i as int)).len() <= parts_calls(ps).len(),
                    self.usage == old(self).usage,
                    parts_calls(ps.subrange(0, i as int)).len() == 0 ==> self.finish_reason == old(
                        self,
                    ).finish_reason,
                    parts_calls(ps.subrange(0, i as int)).len() > 0 ==> self.finish_reason
                        == FinishReason::ToolCalls,
                    events@.len() >= start,
                    start == head.len(),
                    events@.subrange(0, start as int) == head,
                    parts_events(
                        ps.subrange(0, i as int),
                        k0,
                        events@.subrange(start as int, events@.len() as int),
                    ),
                decreases n - i,
            {
                let ghost before = events@;
                let ghost prefix = ps.subrange(0, i as int);
                let part = parts.remove(0);
                assert(part == ps[i as int]);
                proof {
                    assert(ps.subrange(0, i + 1) =~= prefix.push(part));
                    assert(ps.subrange(0, i + 1).drop_last() =~= prefix);
                    lemma_calls_prefix(ps, i + 1);
                }
                match part {
                    Part::Text { text } => {
                        if !text.as_str().is_empty() {
                            events.push(StreamEvent::TextDelta { text });
                        }
                    },
                    Part::FunctionCall { function_call } => {
                        let FunctionCallPart { name, args } = function_call;
                        let k = self.call_index;
                        let id = call_id(k);
                        self.call_index = self.call_index + 1;
                        events.push(
                            StreamEvent::ToolCallDelta {
                                index: k,
                                id: Some(id.clone()),
                                name: Some(name.clone()),
                                arguments_delta: json_to_text(&args),
                            },
                        );
                        events.push(StreamEvent::ToolCall(ToolCall { id, name, arguments: args }));
                        self.finish_reason = FinishReason::ToolCalls;
                    },
                    _ => {},
                }
                proof {
                    let seg = events@.subrange(before.len() as int, events@.len() as int);
                    lemma_parts_events_push(
                        prefix,
                        k0,
                        before.subrange(start as int, before.len() as int),
                        part,
                        seg,
                    );
                    assert(before.subrange(start as int, before.len() as int) + seg
                        =~= events@.subrange(start as int, events@.len() as int));
                    assert(events@.subrange(0, start as int) =~= head);
                }
                i = i + 1;
                proof {
                    assert(parts@ =~= ps.subrange(i as int, n as int));
                }
            }
            assert(ps.subrange(0, n as int) =~= ps);
            if self.finish_reason != FinishReason::ToolCalls {
                if let Some(fr) = finish_reason {
                    self.finish_reason = map_finish_reason(&Some(fr));
                }
            }
        }
        proof {
            assert(!old(self).meta_sent ==> events@[0] == head[0]);
        }
        if let Some(u) = usage_metadata {
            self.usage = map_usage(u);
        }
        events
    }

    /// Ends the round trip with `StepFinish`, carrying the usage and finish
    /// reason reported.
    pub fn finish(self) -> (r: StreamEvent)
        ensures
            r matches StreamEvent::StepFinish { usage, finish_reason } && usage == self.usage
                && finish_reason == self.finish_reason,
    {
        StreamEvent::StepFinish { usage: self.usage, finish_reason: self.finish_reason }
    }
}

/// The calls of a prefix are a prefix of the calls.
proof fn lemma_calls_prefix(ps: Seq<Part>, i: int)
    requires
        0 <= i <= ps.len(),
    ensures
        parts_calls(ps.subrange(0, i)).len() <= parts_calls(ps).len(),
    decreases ps.len() - i,
{
    if i < ps.len() {
        lemma_calls_prefix(ps, i + 1);
        assert(ps.subrange(0, i + 1).drop_last() =~= ps.subrange(0, i));
    } else {
        assert(ps.subrange(0, i) =~= ps);
    }
}

} // verus!
