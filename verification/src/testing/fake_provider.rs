//! What a fake provider decides: which canned response answers a request, and
//! how a canned round trip is streamed.

use vstd::prelude::*;

use crate::stream_event::StreamEvent;
use crate::stream_loop::{fresh_view, observe_all, step_view, RoundView};
use crate::text::Step;
use crate::value_objects::{FinishReason, Usage};

verus! {

/// How many words each streamed text chunk holds unless configured
/// otherwise.
pub const DEFAULT_STREAM_CHUNK_WORDS: usize = 1;

/// Canned responses, answered in the order they were queued, and every
/// request received, in order.
#[derive(Debug)]
pub struct ResponseQueue<Req, Resp> {
    pub responses: Vec<Resp>,
    pub recorded: Vec<Req>,
}

impl<Req, Resp> ResponseQueue<Req, Resp> {
    /// A queue with no responses and no requests.
    pub fn new() -> (r: ResponseQueue<Req, Resp>)
        ensures
            r.responses@.len() == 0,
            r.recorded@.len() == 0,
    {
        ResponseQueue { responses: Vec::new(), recorded: Vec::new() }
    }

    /// Queues a response behind the ones already queued.
    pub fn push(&mut self, response: Resp)
        ensures
            final(self).responses@ == old(self).responses@.push(response),
            final(self).recorded@ == old(self).recorded@,
    {
        self.responses.push(response);
    }

    /// Whether a response is queued.
    pub fn has_response(&self) -> (r: bool)
        ensures
            r == (self.responses@.len() > 0),
    {
        self.responses.len() > 0
    }

    /// Records `request` and answers it with the response queued first.
    pub fn next(&mut self, request: Req) -> (r: Resp)
        requires
            old(self).responses@.len() > 0,
        ensures
            final(self).recorded@ == old(self).recorded@.push(request),
            r == old(self).responses@[0],
            final(self).responses@ == old(self).responses@.drop_first(),
    {
        self.recorded.push(request);
        let r = self.responses.remove(0);
        assert(self.responses@ =~= old(self).responses@.drop_first());
        r
    }

    /// Every request received so far, in order.
    pub fn recorded(&self) -> (r: &Vec<Req>)
        ensures
            r == self.recorded,
    {
        &self.recorded
    }
}

/// The number of spaces in `s`.
pub open spec fn count_spaces(s: Seq<char>) -> nat
    decreases s.len(),
{
    if s.len() == 0 {
        0
    } else {
        count_spaces(s.drop_last()) + if s.last() == ' ' {
            1nat
        } else {
            0nat
        }
    }
}

/// The chunks put back together.
pub open spec fn flatten(chunks: Seq<Seq<char>>) -> Seq<char>
    decreases chunks.len(),
{
    if chunks.len() == 0 {
        Seq::empty()
    } else {
        flatten(chunks.drop_last()) + chunks.last()
    }
}

/// Whether `chunks` are `text` cut into groups of `k` words, a word being
/// what follows the previous space up to and including the next one: the
/// chunks put back together are the text, none is empty, every chunk but the
/// last ends with the `k`-th space of its group, and the last holds what is
/// left (a complete group, or fewer than `k` words).
pub open spec fn chunked(text: Seq<char>, k: nat, chunks: Seq<Seq<char>>) -> bool {
    &&& flatten(chunks) == text
    &&& forall|i: int| 0 <= i < chunks.len() ==> (#[trigger] chunks[i]).len() > 0
    &&& forall|i: int|
        0 <= i < chunks.len() - 1 ==> count_spaces(#[trigger] chunks[i]) == k && chunks[i].last()
            == ' '
    &&& chunks.len() > 0 ==> count_spaces(chunks.last()) <= k && (count_spaces(chunks.last()) == k
        ==> chunks.last().last() == ' ')
}

/// The views of a list of strings.
pub open spec fn views(items: Seq<String>) -> Seq<Seq<char>> {
    Seq::new(items.len(), |i: int| items[i]@)
}

/// Cuts `text` into chunks of `words_per_chunk` words (at least one), for
/// streaming it the way a provider would.
pub fn chunk_words(text: &str, words_per_chunk: usize) -> (r: Vec<String>)
    ensures
        chunked(text@, if words_per_chunk == 0 { 1 } else { words_per_chunk as nat }, views(r@)),
{
    let k: usize = if words_per_chunk == 0 {
        1
    } else {
        words_per_chunk
    };
    let n = text.unicode_len();
    let mut chunks: Vec<String> = Vec::new();
    let mut start: usize = 0;
    let mut count: usize = 0;
    let mut i: usize = 0;
    while i < n
        invariant
            n == text@.len(),
            k >= 1,
            start <= i <= n,
            count < k,
            count == count_spaces(text@.subrange(start as int, i as int)),
            flatten(views(chunks@)) == text@.subrange(0, start as int),
            forall|j: int| 0 <= j < chunks@.len() ==> (#[trigger] chunks@[j])@.len() > 0,
            forall|j: int|
                0 <= j < chunks@.len() ==> count_spaces(#[trigger] chunks@[j]@) == k
                    && chunks@[j]@.last() == ' ',
        decreases n - i,
    {
        let c = text.get_char(i);
        proof {
            assert(text@.subrange(start as int, i + 1).drop_last() =~= text@.subrange(
                start as int,
                i as int,
            ));
        }
        if c == ' ' {
            count = count + 1;
            if count >= k {
                let piece = text.substring_char(start, i + 1);
                let owned_piece = crate::schema::owned(piece);
                let ghost before = views(chunks@);
                chunks.push(owned_piece);
                proof {
                    assert(views(chunks@) =~= before.push(owned_piece@));
                    assert(views(chunks@).drop_last() =~= before);
                    assert(text@.subrange(0, i + 1) =~= text@.subrange(0, start as int)
                        + text@.subrange(start as int, i + 1));
                }
                start = i + 1;
                count = 0;
                assert(text@.subrange(start as int, start as int) =~= Seq::<char>::empty());
            }
        }
        i = i + 1;
    }
    if start < n {
        let piece = text.substring_char(start, n);
        let ghost before = views(chunks@);
        chunks.push(crate::schema::owned(piece));
        proof {
            assert(views(chunks@).drop_last() =~= before);
            assert(text@.subrange(0, n as int) =~= text@.subrange(0, start as int) + text@.subrange(
                start as int,
                n as int,
            ));
        }
    }
    assert(text@.subrange(0, n as int) =~= text@);
    chunks
}

/// Whether `evs` is how a canned round trip streams: `StreamStart` with its
/// metadata, its text as word chunks (`TextDelta` each), each of its tool
/// calls (`ToolCall` each), then `StepFinish` with its usage and finish
/// reason.
pub open spec fn streams_step(step: Step, k: nat, evs: Seq<StreamEvent>) -> bool {
    exists|chunks: Seq<Seq<char>>| #[trigger] streams_step_with(step, k, evs, chunks)
}

/// Whether `evs` is how a canned round trip streams, its text cut into
/// `chunks`.
pub open spec fn streams_step_with(
    step: Step,
    k: nat,
    evs: Seq<StreamEvent>,
    chunks: Seq<Seq<char>>,
) -> bool {
        {
            let t = match step.text {
                Some(x) => x@,
                None => Seq::empty(),
            };
            let c = chunks.len() as int;
            let m = step.tool_calls@.len() as int;
            &&& chunked(t, k, chunks)
            &&& evs.len() == 1 + c + m + 1
            &&& evs[0] matches StreamEvent::StreamStart { meta } && meta.id == step.meta.id
                && meta.model == step.meta.model && meta.rate_limits@ == step.meta.rate_limits@
            &&& forall|i: int|
                0 <= i < c ==> (#[trigger] evs[1 + i] matches StreamEvent::TextDelta { text }
                    && text@ == chunks[i])
            &&& forall|i: int|
                0 <= i < m ==> (#[trigger] evs[1 + c + i] matches StreamEvent::ToolCall(call)
                    && call.deep_view() == step.tool_calls@[i].deep_view())
            &&& evs[1 + c + m] matches StreamEvent::StepFinish { usage, finish_reason } && usage
                == step.usage && finish_reason == step.finish_reason
        }
}

/// The events of streaming a canned round trip, its text cut into chunks of
/// `words_per_chunk` words (at least one).
pub fn step_stream_events(step: &Step, words_per_chunk: usize) -> (r: Vec<StreamEvent>)
    ensures
        streams_step(*step, if words_per_chunk == 0 { 1 } else { words_per_chunk as nat }, r@),
{
    let mut events: Vec<StreamEvent> = Vec::new();
    events.push(StreamEvent::StreamStart { meta: step.meta.copy() });
    let chunks = match &step.text {
        Some(text) => chunk_words(text.as_str(), words_per_chunk),
        None => {
            let none: Vec<String> = Vec::new();
            proof {
                assert(views(none@) =~= Seq::<Seq<char>>::empty());
                assert(flatten(views(none@)) =~= Seq::<char>::empty());
            }
            none
        },
    };
    let ghost cs = views(chunks@);
    let c = chunks.len();
    let mut i: usize = 0;
    while i < c
        invariant
            c == chunks@.len(),
            i <= c,
            events@.len() == 1 + i,
            events@[0] matches StreamEvent::StreamStart { meta } && meta.id == step.meta.id
                && meta.model == step.meta.model && meta.rate_limits@ == step.meta.rate_limits@,
            forall|j: int|
                0 <= j < i ==> (#[trigger] events@[1 + j] matches StreamEvent::TextDelta { text }
                    && text@ == chunks@[j]@),
        decreases c - i,
    {
        events.push(StreamEvent::TextDelta { text: chunks[i].clone() });
        i = i + 1;
    }
    let m = step.tool_calls.len();
    let mut j: usize = 0;
    while j < m
        invariant
            c == chunks@.len(),
            m == step.tool_calls@.len(),
            j <= m,
            events@.len() == 1 + c + j,
            events@[0] matches StreamEvent::StreamStart { meta } && meta.id == step.meta.id
                && meta.model == step.meta.model && meta.rate_limits@ == step.meta.rate_limits@,
            forall|q: int|
                0 <= q < c ==> (#[trigger] events@[1 + q] matches StreamEvent::TextDelta { text }
                    && text@ == chunks@[q]@),
            forall|q: int|
                0 <= q < j ==> (#[trigger] events@[1 + c + q] matches StreamEvent::ToolCall(call)
                    && call.deep_view() == step.tool_calls@[q].deep_view()),
        decreases m - j,
    {
        events.push(StreamEvent::ToolCall(step.tool_calls[j].copy()));
        j = j + 1;
    }
    events.push(StreamEvent::StepFinish { usage: step.usage, finish_reason: step.finish_reason });
    proof {
        assert(forall|q: int| 0 <= q < c ==> cs[q] == chunks@[q]@);
        assert(streams_step_with(
            *step,
            if words_per_chunk == 0 { 1 } else { words_per_chunk as nat },
            events@,
            cs,
        ));
    }
    events
}

/// What a streaming loop has seen after the first `n` events of a canned
/// round trip streamed with its text cut into `chunks`.
spec fn streamed_prefix(step: Step, chunks: Seq<Seq<char>>, n: int) -> RoundView {
    let c = chunks.len() as int;
    let m = step.tool_calls@.len() as int;
    if n <= 1 + c {
        (
            flatten(chunks.take(n - 1)),
            Seq::empty(),
            Usage::spec_zero(),
            FinishReason::Stop,
            step.meta.id,
            step.meta.model,
            step.meta.rate_limits@,
        )
    } else if n <= 1 + c + m {
        (
            flatten(chunks),
            step.tool_calls.deep_view().take(n - 1 - c),
            Usage::spec_zero(),
            FinishReason::Stop,
            step.meta.id,
            step.meta.model,
            step.meta.rate_limits@,
        )
    } else {
        step_view(step)
    }
}

proof fn lemma_streamed_prefix(step: Step, k: nat, evs: Seq<StreamEvent>, chunks: Seq<Seq<char>>, n: int)
    requires
        streams_step_with(step, k, evs, chunks),
        1 <= n <= evs.len(),
    ensures
        observe_all(fresh_view(), evs.take(n)) == streamed_prefix(step, chunks, n),
    decreases n,
{
    let c = chunks.len() as int;
    let m = step.tool_calls@.len() as int;
    assert(evs.take(n).drop_last() =~= evs.take(n - 1));
    assert(evs.take(n).last() == evs[n - 1]);
    if n == 1 {
        assert(evs.take(0) =~= Seq::<StreamEvent>::empty());
        assert(chunks.take(0) =~= Seq::<Seq<char>>::empty());
        assert(flatten(chunks.take(0)) =~= Seq::<char>::empty());
    } else {
        lemma_streamed_prefix(step, k, evs, chunks, n - 1);
        let prev = observe_all(fresh_view(), evs.take(n - 1));
        if n <= 1 + c {
            let i = n - 2;
            assert(evs[1 + i] matches StreamEvent::TextDelta { text } && text@ == chunks[i]);
            assert(chunks.take(i + 1).drop_last() =~= chunks.take(i));
            assert(chunks.take(i + 1).last() == chunks[i]);
        } else if n <= 1 + c + m {
            let i = n - 2 - c;
            assert(evs[1 + c + i] matches StreamEvent::ToolCall(call) && call.deep_view()
                == step.tool_calls@[i].deep_view());
            if i == 0 {
                assert(chunks.take(c) =~= chunks);
                assert(step.tool_calls.deep_view().take(0) =~= Seq::<(Seq<char>, Seq<char>, crate::json::JsonTree)>::empty());
            }
            assert(step.tool_calls.deep_view().take(i + 1) =~= step.tool_calls.deep_view().take(i).push(
                step.tool_calls@[i].deep_view(),
            ));
        } else {
            assert(evs[1 + c + m] matches StreamEvent::StepFinish { usage, finish_reason } && usage
                == step.usage && finish_reason == step.finish_reason);
            if m == 0 {
                assert(chunks.take(c) =~= chunks);
            }
            assert(step.tool_calls.deep_view().take(m) =~= step.tool_calls.deep_view());
        }
    }
}

/// A canned round trip streamed the way the fake provider streams it, and
/// watched from the start of a round by a streaming loop, amounts to the
/// canned round trip itself: the text deltas put back together are its text,
/// and the tool calls, usage, finish reason and metadata are its own.
pub proof fn law_fake_stream_reproduces_step(step: Step, k: nat, evs: Seq<StreamEvent>)
    requires
        streams_step(step, k, evs),
    ensures
        observe_all(fresh_view(), evs) == step_view(step),
{
    let chunks = choose|chunks: Seq<Seq<char>>| #[trigger] streams_step_with(step, k, evs, chunks);
    lemma_streamed_prefix(step, k, evs, chunks, evs.len() as int);
    assert(evs.take(evs.len() as int) =~= evs);
}

} // verus!
