//! Sources of audio.

pub mod system_audio;
