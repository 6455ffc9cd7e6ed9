//! VoyageAI: the embeddings and rerank endpoints.

pub mod embeddings;
pub mod rerank;
