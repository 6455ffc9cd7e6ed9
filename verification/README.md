# llmprism

A client library for large language model APIs (OpenAI, Anthropic, Gemini,
VoyageAI, ElevenLabs and OpenAI-compatible vendors), one interface for text
generation, streaming, tool calling, structured output, embeddings,
reranking, images, moderation and audio.

## Layout

- `src/` is the verified library, checked by Verus. It holds everything the
  library decides: the request and response types, the mapping of each
  provider's wire format to and from them, the decoding of streamed replies,
  the tool-calling loops (plain and streamed) as state machines, the merging
  of provider options, the mapping of failed responses to errors, JSON
  schemas, MCP tool adaptation, canned responses for tests, and the records
  kept for tracing. Its laws (`law_*` proof functions) state what holds across
  calls: what a JSON field reads back after it is set, how provider options
  override a request body, that a streamed request ends with the same result
  as a non-streamed one, and that a canned round trip streamed by the fake
  provider amounts to the round trip itself.
- `app/` is the asynchronous, networked side: the `Provider` and `Tool`
  traits, the HTTP providers, the registry and request builders, the loops
  that drive the verified state machines, the fake provider, MCP toolsets
  and tracing middleware. It is ordinary Rust built on the library.
- `tests/` runs the library on concrete values.

Floating-point settings and scores travel through the library as their IEEE
754 bit patterns (`f32::to_bits`, `f64::to_bits`), unchanged.
