//! The decisions behind a push-to-talk transcription desktop application.

pub mod actions;
pub mod audio_toolkit;
pub mod backoff;
pub mod json;
pub mod managers;
pub mod samples;
pub mod settings;
pub mod text;
pub mod text_laws;
pub mod utils;
pub mod view_laws;
