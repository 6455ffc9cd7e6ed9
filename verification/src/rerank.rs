//! Reranking: ordering documents by their relevance to a query.

use vstd::prelude::*;

use crate::json::JsonValue;
use crate::schema::owned;
use crate::value_objects::{EmbeddingsUsage, Meta};

verus! {

/// A request to rank `documents` by relevance to `query`.
#[derive(Debug)]
pub struct RerankRequest {
    pub model: String,
    pub query: String,
    pub documents: Vec<String>,
    /// How many of the best documents to return; all when `None`.
    pub top_k: Option<u32>,
    /// Whether each result carries its document's text.
    pub return_documents: bool,
    /// Extra provider-specific fields; only a JSON object has an effect.
    pub provider_options: JsonValue,
}

impl RerankRequest {
    /// A request targeting `model` for `query`, with no documents yet.
    pub fn new(model: &str, query: &str) -> (r: RerankRequest)
        ensures
            r.model@ == model@,
            r.query@ == query@,
            r.documents@.len() == 0,
            r.top_k is None,
            !r.return_documents,
            r.provider_options is Null,
    {
        RerankRequest {
            model: owned(model),
            query: owned(query),
            documents: Vec::new(),
            top_k: None,
            return_documents: false,
            provider_options: JsonValue::Null,
        }
    }
}

/// One ranked document. `relevance_score` holds the IEEE-754 bit pattern of
/// the `f32` score.
#[derive(Debug)]
pub struct RankedDocument {
    /// The document's position in the request.
    pub index: usize,
    pub relevance_score: u32,
    pub document: Option<String>,
}

/// The ranked documents, most relevant first.
#[derive(Debug)]
pub struct RerankResponse {
    pub results: Vec<RankedDocument>,
    pub usage: EmbeddingsUsage,
    pub meta: Meta,
}

} // verus!
