//! OpenAI: the Chat Completions wire format, its mapping to and from this
//! library's types, the decoding of a streamed reply, and the embeddings and
//! image endpoints.

pub mod embeddings;
pub mod images;
pub mod maps;
pub mod stream;
pub mod wire;
