//! ElevenLabs: the text-to-speech and speech-to-text endpoints.

pub mod audio;
