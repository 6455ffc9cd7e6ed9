//! Decoding a streamed (`"stream": true`) chat completion, one chunk at a
//! time, into [`StreamEvent`]s.
//!
//! The caller reads the server-sent events, skips blank ones and the closing
//! `[DONE]`, decodes each `data:` payload as a [`ChatStreamChunk`] and hands it
//! to [`OpenAiStream::observe_chunk`], passing on the events it returns; once
//! the stream ends, [`OpenAiStream::finish`] gives the complete tool calls and
//! the closing `StepFinish`.

use vstd::prelude::*;

use crate::stream_event::StreamEvent;
use crate::value_objects::{FinishReason, Meta, ToolCall, Usage};

use super::maps::{arguments_tree, finish_reason_of, map_finish_reason, map_usage, parse_or_null, usage_of};
use super::wire::{ChatStreamChunk, ChatStreamToolCallDelta};

verus! {

/// One tool call being assembled from the deltas of a stream, keyed by the
/// `index` the deltas carry.
#[derive(Debug)]
pub struct ToolCallAccumulator {
    pub index: usize,
    pub id: Option<String>,
    pub name: Option<String>,
    pub arguments: String,
}

/// What an accumulated tool call holds so far.
pub struct AccModel {
    pub id: Option<String>,
    pub name: Option<String>,
    pub arguments: Seq<char>,
}

/// The model of one accumulator.
pub open spec fn acc_model(a: ToolCallAccumulator) -> AccModel {
    AccModel { id: a.id, name: a.name, arguments: a.arguments@ }
}

/// Whether the accumulators are in strictly increasing order of index.
pub open spec fn sorted_indices(accs: Seq<ToolCallAccumulator>) -> bool {
    forall|i: int, j: int| 0 <= i < j < accs.len() ==> accs[i].index < accs[j].index
}

/// Whether some accumulator has index `k`.
pub open spec fn has_index(accs: Seq<ToolCallAccumulator>, k: usize) -> bool {
    exists|i: int| 0 <= i < accs.len() && accs[i].index == k
}

/// The tool calls accumulated so far, by index.
pub open spec fn accumulated(accs: Seq<ToolCallAccumulator>) -> Map<usize, AccModel> {
    Map::new(
        |k: usize| has_index(accs, k),
        |k: usize| acc_model(accs[choose|i: int| 0 <= i < accs.len() && accs[i].index == k]),
    )
}

/// An accumulator before any delta has arrived for it.
pub open spec fn empty_acc() -> AccModel {
    AccModel { id: None, name: None, arguments: Seq::empty() }
}

/// The accumulated tool call at index `k`, or an empty one.
pub open spec fn entry_of(m: Map<usize, AccModel>, k: usize) -> AccModel {
    if m.contains_key(k) {
        m[k]
    } else {
        empty_acc()
    }
}

/// An accumulated tool call after one more delta: a delta's id and name
/// replace the ones so far, and its argument fragment is appended.
pub open spec fn step_acc(e: AccModel, d: ChatStreamToolCallDelta) -> AccModel {
    AccModel {
        id: if d.id is Some {
            d.id
        } else {
            e.id
        },
        name: match d.function {
            Some(f) => if f.name is Some {
                f.name
            } else {
                e.name
            },
            None => e.name,
        },
        arguments: match d.function {
            Some(f) => match f.arguments {
                Some(a) => e.arguments + a@,
                None => e.arguments,
            },
            None => e.arguments,
        },
    }
}

/// The tool calls accumulated by `m` after the deltas `ds`, in order.
pub open spec fn apply_deltas(m: Map<usize, AccModel>, ds: Seq<ChatStreamToolCallDelta>) -> Map<
    usize,
    AccModel,
>
    decreases ds.len(),
{
    if ds.len() == 0 {
        m
    } else {
        let prev = apply_deltas(m, ds.drop_last());
        let d = ds.last();
        prev.insert(d.index, step_acc(entry_of(prev, d.index), d))
    }
}

/// The non-empty argument fragment a delta carries, if any.
pub open spec fn fragment_of(d: ChatStreamToolCallDelta) -> Option<String> {
    match d.function {
        Some(f) => match f.arguments {
            Some(a) => if a@.len() > 0 {
                Some(a)
            } else {
                None
            },
            None => None,
        },
        None => None,
    }
}

/// What a `ToolCallDelta` event carries: the index, the id and name
/// accumulated so far, and the new argument fragment.
pub struct DeltaEventModel {
    pub index: usize,
    pub id: Option<String>,
    pub name: Option<String>,
    pub arguments_delta: String,
}

/// The `ToolCallDelta` events the deltas `ds` produce, starting from `m`: one
/// for each delta with a non-empty argument fragment.
pub open spec fn delta_events(m: Map<usize, AccModel>, ds: Seq<ChatStreamToolCallDelta>) -> Seq<
    DeltaEventModel,
>
    decreases ds.len(),
{
    if ds.len() == 0 {
        Seq::empty()
    } else {
        let prev = apply_deltas(m, ds.drop_last());
        let d = ds.last();
        let e = step_acc(entry_of(prev, d.index), d);
        let before = delta_events(m, ds.drop_last());
        match fragment_of(d) {
            Some(a) => before.push(
                DeltaEventModel { index: d.index, id: e.id, name: e.name, arguments_delta: a },
            ),
            None => before,
        }
    }
}

/// Whether `ev` is the `ToolCallDelta` event `m` describes.
pub open spec fn is_delta_event(ev: StreamEvent, m: DeltaEventModel) -> bool {
    ev matches StreamEvent::ToolCallDelta { index, id, name, arguments_delta } && index == m.index
        && id == m.id && name == m.name && arguments_delta == m.arguments_delta
}

/// The state of one streamed round trip.
#[derive(Debug)]
pub struct OpenAiStream {
    /// The tool calls being assembled, in increasing order of index.
    pub tool_calls: Vec<ToolCallAccumulator>,
    /// Whether the `StreamStart` event has been produced.
    pub meta_sent: bool,
    /// The finish reason reported so far (`Stop` until one is).
    pub finish_reason: FinishReason,
    /// The usage reported so far (zero until a chunk carries it).
    pub usage: Usage,
}

/// A sorted list has each index at most once, so its model at an index is the
/// accumulator at that position.
proof fn lemma_accumulated_at(accs: Seq<ToolCallAccumulator>, p: int)
    requires
        sorted_indices(accs),
        0 <= p < accs.len(),
    ensures
        accumulated(accs).contains_key(accs[p].index),
        accumulated(accs)[accs[p].index] == acc_model(accs[p]),
{
    let k = accs[p].index;
    assert(has_index(accs, k));
    let c = choose|i: int| 0 <= i < accs.len() && accs[i].index == k;
    if c < p {
        assert(accs[c].index < accs[p].index);
    } else if c > p {
        assert(accs[p].index < accs[c].index);
    }
}

/// Replacing the accumulator at a position with one of the same index updates
/// the model at that index.
proof fn lemma_accumulated_update(accs: Seq<ToolCallAccumulator>, p: int, a: ToolCallAccumulator)
    requires
        sorted_indices(accs),
        0 <= p < accs.len(),
        a.index == accs[p].index,
    ensures
        sorted_indices(accs.update(p, a)),
        accumulated(accs.update(p, a)) =~= accumulated(accs).insert(a.index, acc_model(a)),
{
    let n = accs.update(p, a);
    assert(sorted_indices(n)) by {
        assert forall|i: int, j: int| 0 <= i < j < n.len() implies n[i].index < n[j].index by {
            assert(accs[i].index < accs[j].index);
        }
    }
    let lhs = accumulated(n);
    let rhs = accumulated(accs).insert(a.index, acc_model(a));
    assert forall|k: usize| lhs.contains_key(k) <==> rhs.contains_key(k) by {
        if has_index(n, k) {
            let i = choose|i: int| 0 <= i < n.len() && n[i].index == k;
            if i != p {
                assert(accs[i].index == k);
            }
        }
        if has_index(accs, k) {
            let i = choose|i: int| 0 <= i < accs.len() && accs[i].index == k;
            assert(n[i].index == k);
        }
        if k == a.index {
            assert(n[p].index == k);
        }
    }
    assert forall|k: usize| lhs.contains_key(k) implies lhs[k] == rhs[k] by {
        let i = choose|i: int| 0 <= i < n.len() && n[i].index == k;
        lemma_accumulated_at(n, i);
        if i != p {
            lemma_accumulated_at(accs, i);
        }
    }
}

/// Inserting an accumulator with a new index at its sorted position adds it to
/// the model.
proof fn lemma_accumulated_insert(accs: Seq<ToolCallAccumulator>, p: int, a: ToolCallAccumulator)
    requires
        sorted_indices(accs),
        0 <= p <= accs.len(),
        forall|i: int| 0 <= i < p ==> accs[i].index < a.index,
        forall|i: int| p <= i < accs.len() ==> accs[i].index > a.index,
    ensures
        sorted_indices(accs.insert(p, a)),
        accumulated(accs.insert(p, a)) =~= accumulated(accs).insert(a.index, acc_model(a)),
{
    let n = accs.insert(p, a);
    assert(sorted_indices(n)) by {
        assert forall|i: int, j: int| 0 <= i < j < n.len() implies n[i].index < n[j].index by {
            if j < p {
                assert(accs[i].index < accs[j].index);
            } else if j == p {
            } else if i < p {
                assert(n[j] == accs[j - 1]);
            } else if i == p {
                assert(n[j] == accs[j - 1]);
            } else {
                assert(accs[i - 1].index < accs[j - 1].index);
            }
        }
    }
    let lhs = accumulated(n);
    let rhs = accumulated(accs).insert(a.index, acc_model(a));
    assert forall|k: usize| lhs.contains_key(k) <==> rhs.contains_key(k) by {
        if has_index(n, k) {
            let i = choose|i: int| 0 <= i < n.len() && n[i].index == k;
            if i < p {
                assert(accs[i].index == k);
            } else if i > p {
                assert(accs[i - 1].index == k);
            }
        }
        if has_index(accs, k) {
            let i = choose|i: int| 0 <= i < accs.len() && accs[i].index == k;
            if i < p {
                assert(n[i].index == k);
            } else {
                assert(n[i + 1].index == k);
            }
        }
        if k == a.index {
            assert(n[p].index == k);
        }
    }
    assert forall|k: usize| lhs.contains_key(k) implies lhs[k] == rhs[k] by {
        let i = choose|i: int| 0 <= i < n.len() && n[i].index == k;
        lemma_accumulated_at(n, i);
        if i < p {
            lemma_accumulated_at(accs, i);
        } else if i > p {
            lemma_accumulated_at(accs, i - 1);
        }
    }
}

/// The position where index `k` is, or where it belongs.
fn find_slot(accs: &Vec<ToolCallAccumulator>, k: usize) -> (r: (usize, bool))
    requires
        sorted_indices(accs@),
    ensures
        r.0 <= accs@.len(),
        r.1 ==> r.0 < accs@.len() && accs@[r.0 as int].index == k,
        !r.1 ==> (forall|i: int| 0 <= i < r.0 ==> accs@[i].index < k) && (forall|i: int|
            r.0 <= i < accs@.len() ==> accs@[i].index > k),
{
    let mut p: usize = 0;
    while p < accs.len()
        invariant
            p <= accs@.len(),
            sorted_indices(accs@),
            forall|i: int| 0 <= i < p ==> accs@[i].index < k,
        decreases accs@.len() - p,
    {
        if accs[p].index == k {
            return (p, true);
        }
        if accs[p].index > k {
            assert forall|i: int| p <= i < accs@.len() implies accs@[i].index > k by {
                if i > p {
                    assert(accs@[p as int].index < accs@[i].index);
                }
            }
            return (p, false);
        }
        p = p + 1;
    }
    (p, false)
}

impl OpenAiStream {
    /// The state at the start of a round trip.
    pub fn new() -> (r: OpenAiStream)
        ensures
            r.tool_calls@.len() == 0,
            !r.meta_sent,
            r.finish_reason == FinishReason::Stop,
            r.usage == Usage::spec_zero(),
            r.wf(),
    {
        OpenAiStream {
            tool_calls: Vec::new(),
            meta_sent: false,
            finish_reason: FinishReason::Stop,
            usage: Usage::zero(),
        }
    }

    /// Whether the accumulators are in increasing order of index.
    pub open spec fn wf(self) -> bool {
        sorted_indices(self.tool_calls@)
    }

    /// Folds one tool-call delta into the accumulators; gives the
    /// `ToolCallDelta` event to pass on when it carries an argument fragment.
    fn apply_delta(&mut self, delta: ChatStreamToolCallDelta) -> (r: Option<StreamEvent>)
        requires
            old(self).wf(),
        ensures
            final(self).wf(),
            final(self).meta_sent == old(self).meta_sent,
            final(self).finish_reason == old(self).finish_reason,
            final(self).usage == old(self).usage,
            accumulated(final(self).tool_calls@) == accumulated(old(self).tool_calls@).insert(
                delta.index,
                step_acc(entry_of(accumulated(old(self).tool_calls@), delta.index), delta),
            ),
            fragment_of(delta) is None ==> r is None,
            fragment_of(delta) matches Some(a) ==> (r matches Some(ev) && is_delta_event(
                ev,
                DeltaEventModel {
                    index: delta.index,
                    id: step_acc(entry_of(accumulated(old(self).tool_calls@), delta.index), delta).id,
                    name: step_acc(
                        entry_of(accumulated(old(self).tool_calls@), delta.index),
                        delta,
                    ).name,
                    arguments_delta: a,
                },
            )),
    {
        let ghost old_accs = self.tool_calls@;
        let ghost d = delta;
        let ChatStreamToolCallDelta { index, id, function } = delta;
        let (p, found) = find_slot(&self.tool_calls, index);
        let mut entry = if found {
            let e = self.tool_calls.remove(p);
            proof {
                lemma_accumulated_at(old_accs, p as int);
            }
            e
        } else {
            proof {
                if accumulated(old_accs).contains_key(index) {
                    let i = choose|i: int| 0 <= i < old_accs.len() && old_accs[i].index == index;
                    if i < p {
                        assert(old_accs[i].index < index);
                    } else {
                        assert(old_accs[i].index > index);
                    }
                }
            }
            ToolCallAccumulator { index, id: None, name: None, arguments: String::new() }
        };
        assert(acc_model(entry) == entry_of(accumulated(old_accs), index));
        if let Some(x) = id {
            entry.id = Some(x);
        }
        let mut fragment: Option<String> = None;
        if let Some(f) = function {
            if let Some(n) = f.name {
                entry.name = Some(n);
            }
            if let Some(a) = f.arguments {
                entry.arguments.append(a.as_str());
                if !a.as_str().is_empty() {
                    fragment = Some(a);
                }
            }
        }
        assert(acc_model(entry) == step_acc(entry_of(accumulated(old_accs), index), d));
        let event = match fragment {
            Some(a) => Some(
                StreamEvent::ToolCallDelta {
                    index,
                    id: crate::value_objects::copy_opt(&entry.id),
                    name: crate::value_objects::copy_opt(&entry.name),
                    arguments_delta: a,
                },
            ),
            None => None,
        };
        proof {
            if found {
                assert(self.tool_calls@ == old_accs.remove(p as int));
            }
        }
        self.tool_calls.insert(p, entry);
        proof {
            if found {
                assert(self.tool_calls@ =~= old_accs.update(p as int, entry));
                lemma_accumulated_update(old_accs, p as int, entry);
            } else {
                lemma_accumulated_insert(old_accs, p as int, entry);
            }
        }
        event
    }

    /// Reads one chunk of the stream. Gives back, in order: the `StreamStart`
    /// event (for the first chunk only, with the chunk's id and model), then --
    /// from the chunk's first choice -- a `TextDelta` for non-empty content and
    /// a `ToolCallDelta` for each tool-call delta carrying an argument
    /// fragment. The choice's finish reason and the chunk's usage, when
    /// present, replace the ones so far.
    pub fn observe_chunk(&mut self, chunk: ChatStreamChunk) -> (r: Vec<StreamEvent>)
        requires
            old(self).wf(),
        ensures
            final(self).wf(),
            final(self).meta_sent,
            chunk.usage matches Some(u) ==> final(self).usage == usage_of(u),
            chunk.usage is None ==> final(self).usage == old(self).usage,
            ({
                let start = if old(self).meta_sent {
                    0int
                } else {
                    1int
                };
                &&& !old(self).meta_sent ==> starts_with_meta(r@, chunk)
                &&& chunk.choices@.len() == 0 ==> {
                    &&& r@.len() == start
                    &&& final(self).tool_calls@ == old(self).tool_calls@
                    &&& final(self).finish_reason == old(self).finish_reason
                }
                &&& chunk.choices@.len() > 0 ==> {
                    let choice = chunk.choices@[0];
                    let text = match choice.delta.content {
                        Some(c) => if c@.len() > 0 {
                            1int
                        } else {
                            0int
                        },
                        None => 0int,
                    };
                    let des = delta_events(
                        accumulated(old(self).tool_calls@),
                        choice.delta.tool_calls@,
                    );
                    &&& r@.len() == start + text + des.len()
                    &&& text == 1 ==> text_delta_at(r@, start, choice.delta.content)
                    &&& forall|j: int|
                        0 <= j < des.len() ==> is_delta_event(#[trigger] r@[start + text + j], des[j])
                    &&& accumulated(final(self).tool_calls@) == apply_deltas(
                        accumulated(old(self).tool_calls@),
                        choice.delta.tool_calls@,
                    )
                    &&& choice.finish_reason matches Some(fr) ==> final(self).finish_reason
                        == finish_reason_of(fr@)
                    &&& choice.finish_reason is None ==> final(self).finish_reason == old(
                        self,
                    ).finish_reason
                }
            }),
    {
        let ghost m0 = accumulated(self.tool_calls@);
        let ChatStreamChunk { id, model, choices, usage } = chunk;
        let mut events: Vec<StreamEvent> = Vec::new();
        if !self.meta_sent {
            events.push(StreamEvent::StreamStart { meta: Meta::identified(id, model) });
            self.meta_sent = true;
        }
        assert(!old(self).meta_sent ==> starts_with_meta(events@, chunk));
        let ghost start = events@.len();
        let mut choices = choices;
        if choices.len() > 0 {
            let ghost c0 = choices@[0];
            let choice = choices.remove(0);
            assert(choice == c0);
            let crate::providers::openai::wire::ChatStreamChoice { delta, finish_reason } = choice;
            let crate::providers::openai::wire::ChatStreamDelta { content, tool_calls } = delta;
            if let Some(c) = content {
                if !c.as_str().is_empty() {
                    events.push(StreamEvent::TextDelta { text: c });
                    assert(text_delta_at(events@, start as int, c0.delta.content));
                }
            }
            let ghost with_text = events@.len();
            let ghost head = events@;
            let ghost ds = tool_calls@;
            let mut tool_calls = tool_calls;
            let mut i: usize = 0;
            let n = tool_calls.len();
            assert(ds.subrange(0, 0) =~= Seq::<ChatStreamToolCallDelta>::empty());
            while i < n
                invariant
                    self.wf(),
                    self.meta_sent,
                    n == ds.len(),
                    old(self).meta_sent ==> start == 0,
                    !old(self).meta_sent ==> start == 1,
                    self.usage == old(self).usage,
                    self.finish_reason == old(self).finish_reason,
                    i <= n,
                    tool_calls@ == ds.subrange(i as int, n as int),
                    events@.len() == with_text + delta_events(m0, ds.subrange(0, i as int)).len(),
                    with_text == head.len(),
                    events@.subrange(0, with_text as int) == head,
                    forall|j: int|
                        0 <= j < delta_events(m0, ds.subrange(0, i as int)).len() ==> is_delta_event(
                            #[trigger] events@[with_text + j],
                            delta_events(m0, ds.subrange(0, i as int))[j],
                        ),
                    accumulated(self.tool_calls@) == apply_deltas(m0, ds.subrange(0, i as int)),
                decreases n - i,
            {
                let d = tool_calls.remove(0);
                assert(d == ds[i as int]);
                let ghost before = events@;
                let ghost prefix = ds.subrange(0, i as int);
                let ghost next = ds.subrange(0, i + 1);
                assert(next.drop_last() =~= prefix);
                assert(next.last() == d);
                let ev = self.apply_delta(d);
                if let Some(e) = ev {
                    events.push(e);
                }
                proof {
                    assert(events@.subrange(0, with_text as int) =~= head);
                    assert forall|j: int|
                        0 <= j < delta_events(m0, next).len() implies is_delta_event(
                        #[trigger] events@[with_text + j],
                        delta_events(m0, next)[j],
                    ) by {
                        if j < delta_events(m0, prefix).len() {
                            assert(events@[with_text + j] == before[with_text + j]);
                        }
                    }
                }
                i = i + 1;
                proof {
                    assert(tool_calls@ =~= ds.subrange(i as int, n as int));
                }
            }
            assert(ds.subrange(0, n as int) =~= ds);
            assert(events@.subrange(0, with_text as int) == head);
            assert(forall|j: int| 0 <= j < with_text ==> events@[j] == head[j]);
            assert(!old(self).meta_sent ==> events@[0] == head[0]);
            assert(with_text > start ==> events@[start as int] == head[start as int]);
            assert(with_text > start ==> text_delta_at(events@, start as int, c0.delta.content));
            if let Some(fr) = finish_reason {
                self.finish_reason = map_finish_reason(fr.as_str());
            }
        }
        assert(!old(self).meta_sent ==> starts_with_meta(events@, chunk));
        if let Some(u) = usage {
            self.usage = map_usage(u);
        }
        events
    }

    /// Ends the round trip: one `ToolCall` event per accumulated tool call, in
    /// increasing order of index (a missing id or name is empty, and arguments
    /// that are not valid JSON are `null`), then `StepFinish` with the usage and
    /// finish reason reported.
    pub fn finish(self) -> (r: Vec<StreamEvent>)
        requires
            self.wf(),
        ensures
            r@.len() == self.tool_calls@.len() + 1,
            forall|i: int|
                0 <= i < self.tool_calls@.len() ==> (#[trigger] r@[i] matches StreamEvent::ToolCall(c)
                    && call_of_acc(c, self.tool_calls@[i])),
            r@[self.tool_calls@.len() as int] matches StreamEvent::StepFinish { usage, finish_reason }
                && usage == self.usage && finish_reason == self.finish_reason,
    {
        let mut events: Vec<StreamEvent> = Vec::new();
        let mut i: usize = 0;
        while i < self.tool_calls.len()
            invariant
                i <= self.tool_calls@.len(),
                events@.len() == i,
                forall|j: int|
                    0 <= j < i ==> (#[trigger] events@[j] matches StreamEvent::ToolCall(c)
                        && call_of_acc(c, self.tool_calls@[j])),
            decreases self.tool_calls@.len() - i,
        {
            let acc = &self.tool_calls[i];
            let id = match &acc.id {
                Some(x) => x.clone(),
                None => String::new(),
            };
            let name = match &acc.name {
                Some(x) => x.clone(),
                None => String::new(),
            };
            let arguments = parse_or_null(acc.arguments.as_str());
            events.push(StreamEvent::ToolCall(ToolCall { id, name, arguments }));
            i = i + 1;
        }
        events.push(StreamEvent::StepFinish { usage: self.usage, finish_reason: self.finish_reason });
        events
    }
}

/// Whether the first event is the `StreamStart` of `chunk`: its id and model,
/// and no rate limits.
pub open spec fn starts_with_meta(events: Seq<StreamEvent>, chunk: ChatStreamChunk) -> bool {
    events.len() > 0 && (events[0] matches StreamEvent::StreamStart { meta } && meta.id == chunk.id
        && meta.model == chunk.model && meta.rate_limits@.len() == 0)
}

/// Whether the event at `k` is a `TextDelta` carrying `content`.
pub open spec fn text_delta_at(events: Seq<StreamEvent>, k: int, content: Option<String>) -> bool {
    0 <= k < events.len() && (events[k] matches StreamEvent::TextDelta { text } && content == Some(
        text,
    ))
}

/// The text of an optional string, empty when absent.
pub open spec fn or_empty(s: Option<String>) -> Seq<char> {
    match s {
        Some(x) => x@,
        None => Seq::empty(),
    }
}

/// Whether `c` is the complete tool call accumulator `a` stands for.
pub open spec fn call_of_acc(c: ToolCall, a: ToolCallAccumulator) -> bool {
    &&& c.id@ == or_empty(a.id)
    &&& c.name@ == or_empty(a.name)
    &&& c.arguments.tree() == arguments_tree(a.arguments@)
}

} // verus!
