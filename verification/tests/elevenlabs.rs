use llmprism::audio::{AudioInput, SpeechToTextRequest, TextToSpeechRequest};
use llmprism::json::parse_json_text;
use llmprism::providers::elevenlabs::audio::{
    build_speech_request, build_transcription_form, parse_speech_response,
    parse_transcription_response, speech_endpoint_path, TranscriptionApiResponse,
    DEFAULT_VOICE_ID,
};

#[test]
fn speech_endpoint_path_uses_the_default_voice_when_none_is_set() {
    let request = TextToSpeechRequest::new("eleven_flash_v2_5", "hello");

    assert_eq!(speech_endpoint_path(&request), format!("text-to-speech/{DEFAULT_VOICE_ID}"));
}

#[test]
fn speech_endpoint_path_uses_the_requested_voice_when_set() {
    let mut request = TextToSpeechRequest::new("eleven_flash_v2_5", "hello");
    request.voice = Some("custom-voice-id".to_string());

    assert_eq!(speech_endpoint_path(&request), "text-to-speech/custom-voice-id");
}

#[test]
fn the_default_voice_is_rachel() {
    assert_eq!(DEFAULT_VOICE_ID, "21m00Tcm4TlvDq8ikWAM");
}

#[test]
fn speech_request_carries_the_text_and_model() {
    let request = TextToSpeechRequest::new("eleven_flash_v2_5", "hello");
    let wire = build_speech_request(&request);
    assert_eq!(wire.text, "hello");
    assert_eq!(wire.model_id, "eleven_flash_v2_5");
}

#[test]
fn speech_response_falls_back_to_mpeg() {
    let response = parse_speech_response(vec![1, 2, 3], None);
    assert_eq!(response.audio.mime_type, "audio/mpeg");
    assert_eq!(response.audio.data, vec![1, 2, 3]);

    let response = parse_speech_response(vec![4], Some("audio/wav".to_string()));
    assert_eq!(response.audio.mime_type, "audio/wav");
}

#[test]
fn transcription_response_keeps_the_text() {
    let response = parse_transcription_response(TranscriptionApiResponse { text: "hi there".to_string() });
    assert_eq!(response.text, "hi there");
    assert_eq!(response.meta.model, None);
}

#[test]
fn transcription_form_sends_the_model_then_the_options() {
    let audio = AudioInput::new(vec![9, 9], "audio/mpeg").with_filename("clip.mp3");
    let mut request = SpeechToTextRequest::new("scribe_v1", audio);
    request.provider_options =
        parse_json_text(r#"{"language_code": "en", "diarize": true}"#).unwrap();

    let form = build_transcription_form(&request);

    assert_eq!(form.file_field, "file");
    assert_eq!(form.filename, "clip.mp3");
    assert_eq!(form.mime_type, "audio/mpeg");
    assert_eq!(form.data, vec![9, 9]);
    assert_eq!(form.text_fields[0], ("model_id".to_string(), "scribe_v1".to_string()));
    assert_eq!(form.text_fields.len(), 3);
    assert!(form.text_fields.contains(&("language_code".to_string(), "en".to_string())));
    assert!(form.text_fields.contains(&("diarize".to_string(), "true".to_string())));
}

#[test]
fn audio_input_is_named_audio_by_default() {
    let audio = AudioInput::new(vec![1], "audio/wav");
    assert_eq!(audio.filename, "audio");
}
