//! Gemini: the `generateContent` wire format, its mapping to and from this
//! library's types, and the decoding of a streamed reply.

pub mod maps;
pub mod stream;
pub mod wire;
