//! Audio: speech to text and text to speech.

use vstd::prelude::*;

use crate::json::JsonValue;
use crate::schema::owned;
use crate::value_objects::Meta;

verus! {

/// Audio to transcribe.
#[derive(Debug, Clone)]
pub struct AudioInput {
    /// The audio file's bytes.
    pub data: Vec<u8>,
    /// The audio's MIME type (e.g. `"audio/mpeg"`).
    pub mime_type: String,
    /// The file name sent with the upload. Defaults to `"audio"`.
    pub filename: String,
}

impl AudioInput {
    /// Audio with the file name `"audio"`.
    pub fn new(data: Vec<u8>, mime_type: &str) -> (r: AudioInput)
        ensures
            r.data@ == data@,
            r.mime_type@ == mime_type@,
            r.filename@ == "audio"@,
    {
        AudioInput { data, mime_type: owned(mime_type), filename: owned("audio") }
    }

    /// This audio with the file name `filename`.
    pub fn with_filename(self, filename: &str) -> (r: AudioInput)
        ensures
            r.data == self.data,
            r.mime_type == self.mime_type,
            r.filename@ == filename@,
    {
        AudioInput { filename: owned(filename), ..self }
    }
}

/// A request to transcribe audio.
#[derive(Debug)]
pub struct SpeechToTextRequest {
    pub model: String,
    pub audio: AudioInput,
    /// Extra provider-specific fields; only a JSON object has an effect.
    pub provider_options: JsonValue,
}

impl SpeechToTextRequest {
    /// A request targeting `model` to transcribe `audio`.
    pub fn new(model: &str, audio: AudioInput) -> (r: SpeechToTextRequest)
        ensures
            r.model@ == model@,
            r.audio == audio,
            r.provider_options is Null,
    {
        SpeechToTextRequest { model: owned(model), audio, provider_options: JsonValue::Null }
    }
}

/// A transcription.
#[derive(Debug)]
pub struct TranscriptionResponse {
    pub text: String,
    pub meta: Meta,
}

/// A request to speak some text.
#[derive(Debug)]
pub struct TextToSpeechRequest {
    pub model: String,
    pub input: String,
    /// The voice, in the provider's own format; the provider's default when
    /// `None`.
    pub voice: Option<String>,
    /// Extra provider-specific fields; only a JSON object has an effect.
    pub provider_options: JsonValue,
}

impl TextToSpeechRequest {
    /// A request targeting `model` to speak `input` in the default voice.
    pub fn new(model: &str, input: &str) -> (r: TextToSpeechRequest)
        ensures
            r.model@ == model@,
            r.input@ == input@,
            r.voice is None,
            r.provider_options is Null,
    {
        TextToSpeechRequest {
            model: owned(model),
            input: owned(input),
            voice: None,
            provider_options: JsonValue::Null,
        }
    }
}

/// Generated speech.
#[derive(Debug, Clone)]
pub struct AudioOutput {
    pub data: Vec<u8>,
    pub mime_type: String,
}

/// The result of a text-to-speech call.
#[derive(Debug)]
pub struct AudioResponse {
    pub audio: AudioOutput,
    pub meta: Meta,
}

} // verus!
