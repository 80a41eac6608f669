//! Verified core of a desktop speech-to-text client: the model catalog, the
//! WAV framing and request/response handling of a chat-style ASR provider,
//! the global-shortcut plan and the push-to-talk lab key tracker.

pub mod wav;
pub mod json;
pub mod text;
pub mod catalog;
pub mod mimo;
pub mod shortcuts;
pub mod ptt_lab;
