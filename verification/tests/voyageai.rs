use llmprism::providers::voyageai::rerank::{build_request, parse_response, ApiResponse, ApiResult, ApiUsage};
use llmprism::rerank::RerankRequest;
use llmprism::embeddings::EmbeddingsRequest;
use llmprism::providers::voyageai::embeddings::{
    build_request as build_embeddings, parse_response as parse_embeddings, ApiEmbedding,
    ApiResponse as EmbeddingsApiResponse, ApiUsage as EmbeddingsApiUsage,
};

#[test]
fn build_request_passes_top_k_and_return_documents_through() {
    let mut request = RerankRequest::new("rerank-2.5", "capital of France");
    request.documents = vec!["Paris is in France.".to_string()];
    request.top_k = Some(1);
    request.return_documents = true;

    let wire_request = build_request(&request);

    assert_eq!(wire_request.top_k, Some(1));
    assert!(wire_request.return_documents);
    assert_eq!(wire_request.documents, vec!["Paris is in France."]);
}

#[test]
fn parse_response_maps_results_and_usage() {
    let response = ApiResponse {
        data: vec![
            ApiResult { index: 1, relevance_score: 0.95f32.to_bits(), document: None },
            ApiResult {
                index: 0,
                relevance_score: 0.2f32.to_bits(),
                document: Some("low relevance".to_string()),
            },
        ],
        model: "rerank-2.5".to_string(),
        usage: ApiUsage { total_tokens: 42 },
    };

    let parsed = parse_response(response);

    assert_eq!(parsed.results.len(), 2);
    assert_eq!(parsed.results[0].index, 1);
    assert_eq!(f32::from_bits(parsed.results[0].relevance_score), 0.95);
    assert_eq!(parsed.results[1].document.as_deref(), Some("low relevance"));
    assert_eq!(parsed.usage.prompt_tokens, 42);
}

#[test]
fn rerank_response_keeps_the_provider_order_and_names_the_model() {
    let response = ApiResponse {
        data: vec![
            ApiResult { index: 2, relevance_score: 0.5f32.to_bits(), document: None },
            ApiResult { index: 0, relevance_score: 0.4f32.to_bits(), document: None },
            ApiResult { index: 1, relevance_score: 0.1f32.to_bits(), document: None },
        ],
        model: "rerank-2.5".to_string(),
        usage: ApiUsage { total_tokens: 7 },
    };

    let parsed = parse_response(response);

    let order: Vec<usize> = parsed.results.iter().map(|r| r.index).collect();
    assert_eq!(order, vec![2, 0, 1]);
    assert_eq!(parsed.meta.model.as_deref(), Some("rerank-2.5"));
    assert_eq!(parsed.meta.id, None);
}

#[test]
fn voyage_embeddings_come_back_in_input_order() {
    let mut request = EmbeddingsRequest::new("voyage-3");
    request.input = vec!["a".to_string(), "b".to_string()];
    let wire = build_embeddings(&request);
    assert_eq!(wire.model, "voyage-3");
    assert_eq!(wire.input, vec!["a", "b"]);

    let response = EmbeddingsApiResponse {
        data: vec![
            ApiEmbedding { index: 1, embedding: vec![2.0f32.to_bits()] },
            ApiEmbedding { index: 0, embedding: vec![1.0f32.to_bits()] },
        ],
        model: "voyage-3".to_string(),
        usage: EmbeddingsApiUsage { total_tokens: 9 },
    };
    let parsed = parse_embeddings(response);
    assert_eq!(parsed.embeddings.len(), 2);
    assert_eq!(f32::from_bits(parsed.embeddings[0].vector[0]), 1.0);
    assert_eq!(f32::from_bits(parsed.embeddings[1].vector[0]), 2.0);
    assert_eq!(parsed.usage.prompt_tokens, 9);
}
