//! Instrumenting provider calls with spans that follow the OpenTelemetry
//! semantic conventions for generative AI (`gen_ai.*` attributes).
//!
//! The spans themselves are opened and recorded through `tracing`; this module
//! decides what a finished call records.

use vstd::prelude::*;

use crate::value_objects::{copy_opt, Meta, Usage};

verus! {

/// A middleware that wraps every provider call in a `gen_ai.*` span.
#[derive(Debug, Clone, Copy, Default)]
pub struct GenAiTracingMiddleware;

/// What a finished call records on its span.
#[derive(Debug)]
pub struct ResponseRecord {
    /// `gen_ai.response.model`.
    pub response_model: Option<String>,
    /// `gen_ai.usage.input_tokens`, when the call reports token usage.
    pub input_tokens: Option<u64>,
    /// `gen_ai.usage.output_tokens`, when the call reports completion usage.
    pub output_tokens: Option<u64>,
}

/// What a call that returned `meta`, and possibly `usage`, records: the
/// response model always, and the input and output token counts when there
/// is a usage report.
pub fn record_response(meta: &Meta, usage: Option<Usage>) -> (r: ResponseRecord)
    ensures
        r.response_model == meta.model,
        match usage {
            Some(u) => r.input_tokens == Some(u.prompt_tokens as u64) && r.output_tokens == Some(
                u.completion_tokens as u64,
            ),
            None => r.input_tokens is None && r.output_tokens is None,
        },
{
    match usage {
        Some(u) => ResponseRecord {
            response_model: copy_opt(&meta.model),
            input_tokens: Some(u.prompt_tokens as u64),
            output_tokens: Some(u.completion_tokens as u64),
        },
        None => ResponseRecord {
            response_model: copy_opt(&meta.model),
            input_tokens: None,
            output_tokens: None,
        },
    }
}

/// What an embeddings or rerank call records: the response model and the
/// input token count.
pub fn record_input_only(meta: &Meta, prompt_tokens: u32) -> (r: ResponseRecord)
    ensures
        r.response_model == meta.model,
        r.input_tokens == Some(prompt_tokens as u64),
        r.output_tokens is None,
{
    ResponseRecord {
        response_model: copy_opt(&meta.model),
        input_tokens: Some(prompt_tokens as u64),
        output_tokens: None,
    }
}

} // verus!
