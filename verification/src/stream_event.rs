//! Streaming events: what a streaming text request yields incrementally,
//! instead of making the caller wait for the entire reply.

use vstd::prelude::*;

use crate::text::TextResponse;
use crate::value_objects::{FinishReason, Meta, ToolCall, ToolResult, Usage};

verus! {

/// One event in a streamed reply.
///
/// A streamed request produces one [`StreamEvent::StreamStart`], then any
/// number of [`StreamEvent::TextDelta`] / [`StreamEvent::ToolCallDelta`] events
/// as the reply arrives, a [`StreamEvent::ToolCall`] once each tool call has
/// fully arrived, a [`StreamEvent::StepFinish`] once the round trip is done --
/// then, if the model asked to call a tool, a [`StreamEvent::ToolResult`] for
/// each one that ran, followed by another `StreamStart` for the next round
/// trip. The whole sequence ends with exactly one [`StreamEvent::StreamEnd`].
#[derive(Debug)]
pub enum StreamEvent {
    /// A new round trip has begun, with whatever metadata the provider makes
    /// available up front.
    StreamStart { meta: Meta },
    /// A chunk of reply text has arrived.
    TextDelta { text: String },
    /// Part of a tool call has arrived; several of these may come for the same
    /// `index` before the matching [`StreamEvent::ToolCall`].
    ToolCallDelta { index: usize, id: Option<String>, name: Option<String>, arguments_delta: String },
    /// A tool call has fully arrived, with its arguments parsed.
    ToolCall(ToolCall),
    /// A tool call finished running; this is its result.
    ToolResult(ToolResult),
    /// One round trip has finished.
    StepFinish { usage: Usage, finish_reason: FinishReason },
    /// The stream is complete, with the same final result a non-streaming
    /// request returns.
    StreamEnd { response: TextResponse },
}

} // verus!
