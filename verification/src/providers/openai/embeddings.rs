//! OpenAI's Embeddings API (`POST /v1/embeddings`): wire format and mapping.

use vstd::prelude::*;

use crate::embeddings::{Embedding, EmbeddingsRequest, EmbeddingsResponse};
use crate::providers::{stable_order, stable_sort_positions};
use crate::value_objects::{EmbeddingsUsage, Meta};

verus! {

/// An embeddings request.
#[derive(Debug)]
pub struct ApiRequest {
    pub model: String,
    pub input: Vec<String>,
}

/// An embeddings response.
#[derive(Debug)]
pub struct ApiResponse {
    pub model: String,
    pub data: Vec<ApiEmbedding>,
    pub usage: ApiUsage,
}

/// One embedding, with the position of its input. Each component holds the
/// IEEE-754 bit pattern of the `f32` value.
#[derive(Debug)]
pub struct ApiEmbedding {
    pub index: usize,
    pub embedding: Vec<u32>,
}

/// Token usage of an embeddings call.
#[derive(Debug)]
pub struct ApiUsage {
    pub prompt_tokens: u32,
}

/// Builds the embeddings request.
pub fn build_request(request: &EmbeddingsRequest) -> (r: ApiRequest)
    ensures
        r.model@ == request.model@,
        r.input@ == request.input@,
{
    ApiRequest { model: request.model.clone(), input: request.input.clone() }
}

/// The input positions the embeddings of a response carry.
pub open spec fn indices(data: Seq<ApiEmbedding>) -> Seq<usize> {
    Seq::new(data.len(), |i: int| data[i].index)
}

/// Whether `out` are the vectors of `data` in the stable order of their input
/// positions.
pub open spec fn in_input_order(data: Seq<ApiEmbedding>, out: Seq<Embedding>) -> bool {
    exists|order: Seq<usize>|
        stable_order(indices(data), order) && out.len() == order.len() && forall|k: int|
            0 <= k < out.len() ==> (#[trigger] out[k]).vector@ == data[order[k] as int].embedding@
}

/// Turns an embeddings response into an [`EmbeddingsResponse`], the vectors
/// in input order (the API does not promise its own order).
pub fn parse_response(response: ApiResponse) -> (r: EmbeddingsResponse)
    ensures
        in_input_order(response.data@, r.embeddings@),
        r.usage.prompt_tokens == response.usage.prompt_tokens,
        r.meta.id is None,
        r.meta.model == Some(response.model),
        r.meta.rate_limits@.len() == 0,
{
    let data = &response.data;
    let mut keys: Vec<usize> = Vec::new();
    let mut i: usize = 0;
    while i < data.len()
        invariant
            i <= data@.len(),
            keys@ == indices(data@).subrange(0, i as int),
        decreases data@.len() - i,
    {
        keys.push(data[i].index);
        i = i + 1;
        assert(keys@ =~= indices(data@).subrange(0, i as int));
    }
    assert(keys@ =~= indices(data@));
    let order = stable_sort_positions(&keys);
    let mut embeddings: Vec<Embedding> = Vec::new();
    let mut k: usize = 0;
    while k < order.len()
        invariant
            stable_order(indices(data@), order@),
            k <= order@.len(),
            embeddings@.len() == k,
            forall|j: int|
                0 <= j < k ==> (#[trigger] embeddings@[j]).vector@ == data@[order@[j] as int].embedding@,
        decreases order@.len() - k,
    {
        let p = order[k];
        let vector = data[p].embedding.clone();
        embeddings.push(Embedding { vector });
        k = k + 1;
    }
    let ApiResponse { model, usage, .. } = response;
    EmbeddingsResponse {
        embeddings,
        usage: EmbeddingsUsage { prompt_tokens: usage.prompt_tokens },
        meta: Meta::identified(None, Some(model)),
    }
}

} // verus!
