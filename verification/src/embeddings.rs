//! Embeddings: turning texts into vectors.

use vstd::prelude::*;

use crate::json::JsonValue;
use crate::schema::owned;
use crate::value_objects::{EmbeddingsUsage, Meta};

verus! {

/// A request for the embeddings of some texts.
#[derive(Debug)]
pub struct EmbeddingsRequest {
    /// The model identifier, in the target provider's own format.
    pub model: String,
    /// The texts to embed, in order.
    pub input: Vec<String>,
    /// Extra provider-specific fields; only a JSON object has an effect.
    pub provider_options: JsonValue,
}

impl EmbeddingsRequest {
    /// A request targeting `model` with no input yet.
    pub fn new(model: &str) -> (r: EmbeddingsRequest)
        ensures
            r.model@ == model@,
            r.input@.len() == 0,
            r.provider_options is Null,
    {
        EmbeddingsRequest { model: owned(model), input: Vec::new(), provider_options: JsonValue::Null }
    }
}

/// One embedding vector. Each component holds the IEEE-754 bit pattern of
/// the `f32` value (`f32::to_bits`).
#[derive(Debug, Clone)]
pub struct Embedding {
    pub vector: Vec<u32>,
}

/// The embeddings of a request's input, in input order.
#[derive(Debug)]
pub struct EmbeddingsResponse {
    pub embeddings: Vec<Embedding>,
    pub usage: EmbeddingsUsage,
    pub meta: Meta,
}

} // verus!
