//! Moderation: classifying texts against a provider's content policy.

use vstd::prelude::*;

use crate::json::JsonValue;
use crate::schema::owned;
use crate::value_objects::Meta;

verus! {

/// A request to classify some texts.
#[derive(Debug)]
pub struct ModerationRequest {
    pub model: String,
    /// The texts to classify, in order.
    pub input: Vec<String>,
    /// Extra provider-specific fields; only a JSON object has an effect.
    pub provider_options: JsonValue,
}

impl ModerationRequest {
    /// A request targeting `model` with no input yet.
    pub fn new(model: &str) -> (r: ModerationRequest)
        ensures
            r.model@ == model@,
            r.input@.len() == 0,
            r.provider_options is Null,
    {
        ModerationRequest { model: owned(model), input: Vec::new(), provider_options: JsonValue::Null }
    }
}

/// One classification per input, in order.
#[derive(Debug)]
pub struct ModerationResponse {
    pub results: Vec<ModerationResult>,
    pub meta: Meta,
}

/// The classification of one input. Each category score holds the IEEE-754
/// bit pattern of the `f64` score.
#[derive(Debug)]
pub struct ModerationResult {
    pub flagged: bool,
    pub categories: Vec<(String, bool)>,
    pub category_scores: Vec<(String, u64)>,
}

} // verus!
