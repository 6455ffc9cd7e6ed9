//! A provider-agnostic client library for Large Language Model services.

pub mod error;
pub mod value_objects;
pub mod json;
pub mod schema;
pub mod text;
pub mod tool_loop;
pub mod stream_event;
pub mod stream_loop;
pub mod structured;
pub mod providers;
pub mod client;
pub mod audio;
pub mod embeddings;
pub mod images;
pub mod moderation;
pub mod rerank;
pub mod mcp;
pub mod testing;
pub mod tracing_middleware;
pub mod registry;
