//! Anthropic: the Messages API wire format and its mapping to and from this
//! library's types.

pub mod maps;
pub mod wire;
