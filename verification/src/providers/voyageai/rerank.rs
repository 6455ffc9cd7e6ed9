//! VoyageAI's Rerank API (`POST /v1/rerank`): wire format and mapping.

use vstd::prelude::*;

use crate::rerank::{RankedDocument, RerankRequest, RerankResponse};
use crate::value_objects::{EmbeddingsUsage, Meta};

verus! {

/// A rerank request.
#[derive(Debug)]
pub struct ApiRequest {
    pub query: String,
    pub documents: Vec<String>,
    pub model: String,
    /// Not sent when `None`.
    pub top_k: Option<u32>,
    pub return_documents: bool,
}

/// A rerank response.
#[derive(Debug)]
pub struct ApiResponse {
    pub data: Vec<ApiResult>,
    pub model: String,
    pub usage: ApiUsage,
}

/// One ranked document. `relevance_score` holds the IEEE-754 bit pattern of
/// the `f32` score.
#[derive(Debug)]
pub struct ApiResult {
    pub index: usize,
    pub relevance_score: u32,
    pub document: Option<String>,
}

/// Token usage of a rerank call.
#[derive(Debug)]
pub struct ApiUsage {
    pub total_tokens: u32,
}

/// Builds the rerank request; every setting passes through.
pub fn build_request(request: &RerankRequest) -> (r: ApiRequest)
    ensures
        r.query@ == request.query@,
        r.documents@ == request.documents@,
        r.model@ == request.model@,
        r.top_k == request.top_k,
        r.return_documents == request.return_documents,
{
    ApiRequest {
        query: request.query.clone(),
        documents: request.documents.clone(),
        model: request.model.clone(),
        top_k: request.top_k,
        return_documents: request.return_documents,
    }
}

/// Turns a rerank response into a [`RerankResponse`], keeping the provider's
/// order (most relevant first).
pub fn parse_response(response: ApiResponse) -> (r: RerankResponse)
    ensures
        r.results@.len() == response.data@.len(),
        forall|i: int|
            0 <= i < r.results@.len() ==> (#[trigger] r.results@[i]).index == response.data@[i].index
                && r.results@[i].relevance_score == response.data@[i].relevance_score
                && r.results@[i].document == response.data@[i].document,
        r.usage.prompt_tokens == response.usage.total_tokens,
        r.meta.id is None,
        r.meta.model == Some(response.model),
        r.meta.rate_limits@.len() == 0,
{
    let ApiResponse { data, model, usage } = response;
    let ghost all = data@;
    let mut rest = data;
    let n = rest.len();
    let mut results: Vec<RankedDocument> = Vec::new();
    let mut i: usize = 0;
    while i < n
        invariant
            n == all.len(),
            i <= n,
            rest@ == all.subrange(i as int, n as int),
            results@.len() == i,
            forall|j: int|
                0 <= j < i ==> (#[trigger] results@[j]).index == all[j].index
                    && results@[j].relevance_score == all[j].relevance_score
                    && results@[j].document == all[j].document,
        decreases n - i,
    {
        let result = rest.remove(0);
        assert(result == all[i as int]);
        let ApiResult { index, relevance_score, document } = result;
        results.push(RankedDocument { index, relevance_score, document });
        i = i + 1;
        assert(rest@ =~= all.subrange(i as int, n as int));
    }
    RerankResponse {
        results,
        usage: EmbeddingsUsage { prompt_tokens: usage.total_tokens },
        meta: Meta::identified(None, Some(model)),
    }
}

} // verus!
