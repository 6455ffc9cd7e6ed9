//! Structured output: asking the model for JSON data matching a schema,
//! rather than free text.

use vstd::prelude::*;

use crate::json::JsonValue;
use crate::schema::{owned, ObjectSchema};
use crate::value_objects::{FinishReason, Message, Meta, Usage};

verus! {

/// The frozen, ready-to-send description of one structured-output call.
///
/// `temperature` and `top_p` hold the IEEE-754 bit pattern of the `f32` value.
#[derive(Debug)]
pub struct StructuredRequest {
    /// The model identifier, in the target provider's own format.
    pub model: String,
    /// System-level instructions, in the order they were added.
    pub system_prompts: Vec<String>,
    /// The conversation so far, oldest first.
    pub messages: Vec<Message>,
    /// The maximum number of tokens the model may generate.
    pub max_tokens: Option<u32>,
    /// Sampling temperature, as `f32` bits.
    pub temperature: Option<u32>,
    /// Nucleus-sampling cutoff, as `f32` bits.
    pub top_p: Option<u32>,
    /// The shape the reply's data must have.
    pub schema: ObjectSchema,
    /// Extra provider-specific fields; only a JSON object has an effect.
    pub provider_options: JsonValue,
}

impl StructuredRequest {
    /// A bare request targeting `model` for data shaped like `schema`, with no
    /// messages and every optional setting left at the provider's default.
    pub fn new(model: &str, schema: ObjectSchema) -> (r: StructuredRequest)
        ensures
            r.model@ == model@,
            r.system_prompts@.len() == 0,
            r.messages@.len() == 0,
            r.max_tokens is None,
            r.temperature is None,
            r.top_p is None,
            r.schema == schema,
            r.provider_options is Null,
    {
        StructuredRequest {
            model: owned(model),
            system_prompts: Vec::new(),
            messages: Vec::new(),
            max_tokens: None,
            temperature: None,
            top_p: None,
            schema,
            provider_options: JsonValue::Null,
        }
    }
}

/// The result of a structured-output call.
#[derive(Debug)]
pub struct StructuredResponse {
    /// The data the model produced, matching the requested schema.
    pub data: JsonValue,
    /// Why the model stopped generating.
    pub finish_reason: FinishReason,
    /// Token usage for the call.
    pub usage: Usage,
    /// Provider-reported metadata.
    pub meta: Meta,
}

/// One event of a streamed structured-output call.
#[derive(Debug)]
pub enum StructuredStreamEvent {
    /// The data parsed so far.
    PartialObject { data: JsonValue },
    /// The stream is complete.
    End { response: StructuredResponse },
}

} // verus!
