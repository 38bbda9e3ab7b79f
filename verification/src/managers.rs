//! The long-lived parts of the application.

pub mod audio;
pub mod audio_laws;
pub mod audio_runs;
pub mod dual_stream;
pub mod english_laws;
pub mod incremental_transcription;
pub mod microphone;
pub mod mistral_realtime;
pub mod mute;
pub mod realtime_laws;
pub mod streaming_translator;
pub mod timeline_laws;
pub mod translator_laws;
