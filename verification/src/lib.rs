//! Core of a voice-message summarizer bot: identity resolution for prompt
//! personalization, scoped temp-file paths, the fixed request shapes sent to
//! the speech-to-text and completion services, and the per-message pipeline
//! state machine with its partial-failure policy.

pub mod identity;
pub mod laws;
pub mod pipeline;
pub mod request;
pub mod tmp;
