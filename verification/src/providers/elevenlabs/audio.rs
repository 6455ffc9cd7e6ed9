//! ElevenLabs' audio endpoints: text to speech (`POST
//! /v1/text-to-speech/{voice_id}`, JSON in, audio bytes out) and speech to
//! text (`POST /v1/speech-to-text`, a multipart upload in, JSON out). The
//! voice is part of the URL path, not a body field.

use vstd::prelude::*;

use crate::audio::{AudioOutput, AudioResponse, SpeechToTextRequest, TextToSpeechRequest, TranscriptionResponse};
use crate::client::{form_text, merge_provider_options_into_form};
use crate::schema::owned;
use crate::value_objects::Meta;

verus! {

/// The voice used when a request names none.
pub const DEFAULT_VOICE_ID: &'static str = "21m00Tcm4TlvDq8ikWAM";

/// The MIME type assumed for generated speech when the response has none.
pub const DEFAULT_AUDIO_MIME_TYPE: &'static str = "audio/mpeg";

/// A text-to-speech request body.
#[derive(Debug)]
pub struct SpeechApiRequest {
    pub text: String,
    pub model_id: String,
}

/// The voice a request is spoken in: its own, or [`DEFAULT_VOICE_ID`].
pub open spec fn voice_of(request: TextToSpeechRequest) -> Seq<char> {
    match request.voice {
        Some(v) => v@,
        None => DEFAULT_VOICE_ID@,
    }
}

/// The path of the text-to-speech endpoint for a request:
/// `text-to-speech/{voice_id}`.
pub fn speech_endpoint_path(request: &TextToSpeechRequest) -> (r: String)
    ensures
        r@ == "text-to-speech/"@ + voice_of(*request),
{
    let mut path = owned("text-to-speech/");
    match &request.voice {
        Some(v) => path.append(v.as_str()),
        None => path.append(DEFAULT_VOICE_ID),
    }
    path
}

/// Builds the text-to-speech request body.
pub fn build_speech_request(request: &TextToSpeechRequest) -> (r: SpeechApiRequest)
    ensures
        r.text@ == request.input@,
        r.model_id@ == request.model@,
{
    SpeechApiRequest { text: request.input.clone(), model_id: request.model.clone() }
}

/// The generated speech: the response's bytes, with its content type or
/// [`DEFAULT_AUDIO_MIME_TYPE`].
pub fn parse_speech_response(data: Vec<u8>, mime_type: Option<String>) -> (r: AudioResponse)
    ensures
        r.audio.data == data,
        match mime_type {
            Some(m) => r.audio.mime_type == m,
            None => r.audio.mime_type@ == DEFAULT_AUDIO_MIME_TYPE@,
        },
        r.meta.id is None,
        r.meta.model is None,
        r.meta.rate_limits@.len() == 0,
{
    let mime_type = match mime_type {
        Some(m) => m,
        None => owned(DEFAULT_AUDIO_MIME_TYPE),
    };
    AudioResponse { audio: AudioOutput { data, mime_type }, meta: Meta::empty() }
}

/// A speech-to-text response body.
#[derive(Debug)]
pub struct TranscriptionApiResponse {
    pub text: String,
}

/// The transcription a response carries.
pub fn parse_transcription_response(response: TranscriptionApiResponse) -> (r: TranscriptionResponse)
    ensures
        r.text == response.text,
        r.meta.id is None,
        r.meta.model is None,
        r.meta.rate_limits@.len() == 0,
{
    TranscriptionResponse { text: response.text, meta: Meta::empty() }
}

/// The multipart form of a speech-to-text upload: its text fields, in order,
/// and the audio file, sent as the `file` field.
#[derive(Debug)]
pub struct TranscriptionForm {
    pub text_fields: Vec<(String, String)>,
    pub file_field: String,
    pub data: Vec<u8>,
    pub filename: String,
    pub mime_type: String,
}

/// Builds the speech-to-text upload: a `model_id` text field, then one text
/// field per provider option, and the audio as the `file` field with its file
/// name and MIME type.
pub fn build_transcription_form(request: &SpeechToTextRequest) -> (r: TranscriptionForm)
    ensures
        r.file_field@ == "file"@,
        r.data@ == request.audio.data@,
        r.filename@ == request.audio.filename@,
        r.mime_type@ == request.audio.mime_type@,
        r.text_fields@.len() >= 1,
        r.text_fields@[0].0@ == "model_id"@,
        r.text_fields@[0].1@ == request.model@,
        request.provider_options.tree() is Object ==> {
            let o = request.provider_options.tree()->Object_0;
            &&& r.text_fields@.len() == 1 + o.len()
            &&& forall|i: int|
                0 <= i < o.len() ==> (#[trigger] r.text_fields@[1 + i]).0@ == o[i].0
                    && r.text_fields@[1 + i].1@ == form_text(o[i].1)
        },
        !(request.provider_options.tree() is Object) ==> r.text_fields@.len() == 1,
{
    let mut text_fields: Vec<(String, String)> = Vec::new();
    text_fields.push((owned("model_id"), request.model.clone()));
    let mut extra = merge_provider_options_into_form(&request.provider_options);
    let ghost extra_view = extra@;
    text_fields.append(&mut extra);
    assert(text_fields@ =~= seq![text_fields@[0]] + extra_view);
    TranscriptionForm {
        text_fields,
        file_field: owned("file"),
        data: request.audio.data.clone(),
        filename: request.audio.filename.clone(),
        mime_type: request.audio.mime_type.clone(),
    }
}

} // verus!
