//! Capturing the system audio through process taps, on macOS 14.2 and later.

pub mod capture;
pub mod capture_laws;
pub mod permission;
pub mod version;

pub use crate::audio_toolkit::system_audio::capture::SystemAudioCapture;
pub use crate::audio_toolkit::system_audio::permission::{
    check_permission, prompt_screen_recording_registration, request_permission, TccStatus,
};
pub use crate::audio_toolkit::system_audio::version::is_available;
