//! Builders for canned responses.

use vstd::prelude::*;

use crate::audio::{AudioOutput, AudioResponse, TranscriptionResponse};
use crate::embeddings::{Embedding, EmbeddingsResponse};
use crate::images::{GeneratedImage, ImagesResponse};
use crate::json::JsonValue;
use crate::moderation::{ModerationResponse, ModerationResult};
use crate::schema::owned;
use crate::structured::StructuredResponse;
use crate::text::Step;
use crate::value_objects::{EmbeddingsUsage, FinishReason, MediaData, Meta, ToolCall, Usage};

verus! {

/// A canned round trip.
pub struct FakeTextResponse {
    pub step: Step,
}

impl FakeTextResponse {
    /// A round trip that replies `text` (no text when empty) and stops
    /// normally, with zero usage and no metadata.
    pub fn new(text: &str) -> (r: FakeTextResponse)
        ensures
            text@.len() == 0 ==> r.step.text is None,
            text@.len() > 0 ==> (r.step.text matches Some(t) && t@ == text@),
            r.step.tool_calls@.len() == 0,
            r.step.finish_reason == FinishReason::Stop,
            r.step.usage == Usage::spec_zero(),
            r.step.meta.id is None && r.step.meta.model is None,
            r.step.meta.rate_limits@.len() == 0,
    {
        FakeTextResponse {
            step: Step {
                text: if text.is_empty() {
                    None
                } else {
                    Some(owned(text))
                },
                tool_calls: Vec::new(),
                finish_reason: FinishReason::Stop,
                usage: Usage::zero(),
                meta: Meta::empty(),
            },
        }
    }

    /// Adds a tool call; the round trip then finishes with `ToolCalls`.
    pub fn with_tool_call(self, id: &str, name: &str, arguments: JsonValue) -> (r: FakeTextResponse)
        ensures
            r.step.text == self.step.text,
            r.step.usage == self.step.usage,
            r.step.meta == self.step.meta,
            r.step.finish_reason == FinishReason::ToolCalls,
            r.step.tool_calls@.len() == self.step.tool_calls@.len() + 1,
            r.step.tool_calls@.subrange(0, self.step.tool_calls@.len() as int)
                == self.step.tool_calls@,
            r.step.tool_calls@.last().id@ == id@,
            r.step.tool_calls@.last().name@ == name@,
            r.step.tool_calls@.last().arguments == arguments,
    {
        let mut step = self.step;
        let ghost before = step.tool_calls@;
        step.tool_calls.push(ToolCall { id: owned(id), name: owned(name), arguments });
        assert(step.tool_calls@.subrange(0, before.len() as int) =~= before);
        step.finish_reason = FinishReason::ToolCalls;
        FakeTextResponse { step }
    }

    /// Sets the usage.
    pub fn with_usage(self, usage: Usage) -> (r: FakeTextResponse)
        ensures
            r.step == (Step { usage, ..self.step }),
    {
        FakeTextResponse { step: Step { usage, ..self.step } }
    }

    /// Sets the finish reason.
    pub fn with_finish_reason(self, finish_reason: FinishReason) -> (r: FakeTextResponse)
        ensures
            r.step == (Step { finish_reason, ..self.step }),
    {
        FakeTextResponse { step: Step { finish_reason, ..self.step } }
    }

    /// The round trip.
    pub fn build(self) -> (r: Step)
        ensures
            r == self.step,
    {
        self.step
    }
}

/// A canned structured-output response.
pub struct FakeStructuredResponse {
    pub response: StructuredResponse,
}

impl FakeStructuredResponse {
    /// A response carrying `data` that stopped normally, with zero usage and
    /// no metadata.
    pub fn new(data: JsonValue) -> (r: FakeStructuredResponse)
        ensures
            r.response.data == data,
            r.response.finish_reason == FinishReason::Stop,
            r.response.usage == Usage::spec_zero(),
            r.response.meta.id is None && r.response.meta.model is None,
            r.response.meta.rate_limits@.len() == 0,
    {
        FakeStructuredResponse {
            response: StructuredResponse {
                data,
                finish_reason: FinishReason::Stop,
                usage: Usage::zero(),
                meta: Meta::empty(),
            },
        }
    }

    /// Sets the usage.
    pub fn with_usage(self, usage: Usage) -> (r: FakeStructuredResponse)
        ensures
            r.response == (StructuredResponse { usage, ..self.response }),
    {
        FakeStructuredResponse { response: StructuredResponse { usage, ..self.response } }
    }

    /// Sets the finish reason.
    pub fn with_finish_reason(self, finish_reason: FinishReason) -> (r: FakeStructuredResponse)
        ensures
            r.response == (StructuredResponse { finish_reason, ..self.response }),
    {
        FakeStructuredResponse { response: StructuredResponse { finish_reason, ..self.response } }
    }

    /// The response.
    pub fn build(self) -> (r: StructuredResponse)
        ensures
            r == self.response,
    {
        self.response
    }
}

/// A canned moderation response.
pub struct FakeModerationResponse {
    pub response: ModerationResponse,
}

impl FakeModerationResponse {
    /// A response with no results yet and no metadata.
    pub fn new() -> (r: FakeModerationResponse)
        ensures
            r.response.results@.len() == 0,
            r.response.meta.id is None && r.response.meta.model is None,
            r.response.meta.rate_limits@.len() == 0,
    {
        FakeModerationResponse { response: ModerationResponse { results: Vec::new(), meta: Meta::empty() } }
    }

    /// Adds a result that is flagged or not, with no categories or scores.
    pub fn flagged(self, flagged: bool) -> (r: FakeModerationResponse)
        ensures
            r.response.meta == self.response.meta,
            r.response.results@.len() == self.response.results@.len() + 1,
            r.response.results@.subrange(0, self.response.results@.len() as int)
                == self.response.results@,
            r.response.results@.last().flagged == flagged,
            r.response.results@.last().categories@.len() == 0,
            r.response.results@.last().category_scores@.len() == 0,
    {
        self.with_result(ModerationResult { flagged, categories: Vec::new(), category_scores: Vec::new() })
    }

    /// Adds a result.
    pub fn with_result(self, result: ModerationResult) -> (r: FakeModerationResponse)
        ensures
            r.response.meta == self.response.meta,
            r.response.results@ == self.response.results@.push(result),
    {
        let mut response = self.response;
        response.results.push(result);
        FakeModerationResponse { response }
    }

    /// The response.
    pub fn build(self) -> (r: ModerationResponse)
        ensures
            r == self.response,
    {
        self.response
    }
}

/// A canned embeddings response.
pub struct FakeEmbeddingsResponse {
    pub response: EmbeddingsResponse,
}

impl FakeEmbeddingsResponse {
    /// A response with no embeddings yet, zero usage and no metadata.
    pub fn new() -> (r: FakeEmbeddingsResponse)
        ensures
            r.response.embeddings@.len() == 0,
            r.response.usage.prompt_tokens == 0,
            r.response.meta.id is None && r.response.meta.model is None,
            r.response.meta.rate_limits@.len() == 0,
    {
        FakeEmbeddingsResponse {
            response: EmbeddingsResponse {
                embeddings: Vec::new(),
                usage: EmbeddingsUsage { prompt_tokens: 0 },
                meta: Meta::empty(),
            },
        }
    }

    /// Adds an embedding (each component as `f32` bits).
    pub fn with_embedding(self, vector: Vec<u32>) -> (r: FakeEmbeddingsResponse)
        ensures
            r.response.usage == self.response.usage,
            r.response.meta == self.response.meta,
            r.response.embeddings@ == self.response.embeddings@.push(Embedding { vector }),
    {
        let mut response = self.response;
        response.embeddings.push(Embedding { vector });
        FakeEmbeddingsResponse { response }
    }

    /// Sets the usage.
    pub fn with_usage(self, usage: EmbeddingsUsage) -> (r: FakeEmbeddingsResponse)
        ensures
            r.response == (EmbeddingsResponse { usage, ..self.response }),
    {
        FakeEmbeddingsResponse { response: EmbeddingsResponse { usage, ..self.response } }
    }

    /// The response.
    pub fn build(self) -> (r: EmbeddingsResponse)
        ensures
            r == self.response,
    {
        self.response
    }
}

/// A canned image generation response.
pub struct FakeImagesResponse {
    pub response: ImagesResponse,
}

impl FakeImagesResponse {
    /// A response with no images yet and no metadata.
    pub fn new() -> (r: FakeImagesResponse)
        ensures
            r.response.images@.len() == 0,
            r.response.meta.id is None && r.response.meta.model is None,
            r.response.meta.rate_limits@.len() == 0,
    {
        FakeImagesResponse { response: ImagesResponse { images: Vec::new(), meta: Meta::empty() } }
    }

    /// Adds an image found at `url`.
    pub fn with_url(self, url: &str) -> (r: FakeImagesResponse)
        ensures
            r.response.meta == self.response.meta,
            r.response.images@.len() == self.response.images@.len() + 1,
            r.response.images@.subrange(0, self.response.images@.len() as int)
                == self.response.images@,
            r.response.images@.last().data matches MediaData::Url(u) && u@ == url@,
            r.response.images@.last().revised_prompt is None,
    {
        let mut response = self.response;
        let ghost before = response.images@;
        response.images.push(GeneratedImage { data: MediaData::Url(owned(url)), revised_prompt: None });
        assert(response.images@.subrange(0, before.len() as int) =~= before);
        FakeImagesResponse { response }
    }

    /// Adds an image given as base64 bytes.
    pub fn with_base64(self, data: &str) -> (r: FakeImagesResponse)
        ensures
            r.response.meta == self.response.meta,
            r.response.images@.len() == self.response.images@.len() + 1,
            r.response.images@.subrange(0, self.response.images@.len() as int)
                == self.response.images@,
            r.response.images@.last().data matches MediaData::Base64(d) && d@ == data@,
            r.response.images@.last().revised_prompt is None,
    {
        let mut response = self.response;
        let ghost before = response.images@;
        response.images.push(GeneratedImage { data: MediaData::Base64(owned(data)), revised_prompt: None });
        assert(response.images@.subrange(0, before.len() as int) =~= before);
        FakeImagesResponse { response }
    }

    /// The response.
    pub fn build(self) -> (r: ImagesResponse)
        ensures
            r == self.response,
    {
        self.response
    }
}

/// A canned text-to-speech response.
pub struct FakeAudioResponse {
    pub response: AudioResponse,
}

impl FakeAudioResponse {
    /// Speech with the bytes `data` of type `mime_type`, and no metadata.
    pub fn new(data: Vec<u8>, mime_type: &str) -> (r: FakeAudioResponse)
        ensures
            r.response.audio.data == data,
            r.response.audio.mime_type@ == mime_type@,
            r.response.meta.id is None && r.response.meta.model is None,
            r.response.meta.rate_limits@.len() == 0,
    {
        FakeAudioResponse {
            response: AudioResponse {
                audio: AudioOutput { data, mime_type: owned(mime_type) },
                meta: Meta::empty(),
            },
        }
    }

    /// The response.
    pub fn build(self) -> (r: AudioResponse)
        ensures
            r == self.response,
    {
        self.response
    }
}

/// A canned transcription.
pub struct FakeTranscriptionResponse {
    pub response: TranscriptionResponse,
}

impl FakeTranscriptionResponse {
    /// A transcription reading `text`, with no metadata.
    pub fn new(text: &str) -> (r: FakeTranscriptionResponse)
        ensures
            r.response.text@ == text@,
            r.response.meta.id is None && r.response.meta.model is None,
            r.response.meta.rate_limits@.len() == 0,
    {
        FakeTranscriptionResponse {
            response: TranscriptionResponse { text: owned(text), meta: Meta::empty() },
        }
    }

    /// The response.
    pub fn build(self) -> (r: TranscriptionResponse)
        ensures
            r == self.response,
    {
        self.response
    }
}

} // verus!
