//! Decision logic of a live meeting assistant: a rolling window of audio
//! samples, the gates and clean-up around speech-to-text, a transcript
//! cache, and an agenda whose goals are scored against the transcript.
//!
//! Sample values and embeddings are carried as opaque payloads; scores,
//! similarities and energy levels are fixed-point numbers counted in
//! millionths.

pub mod activity;
pub mod agenda;
pub mod backend;
pub mod buffer;
pub mod cache;
pub mod expand;
pub mod fixed;
pub mod scoring;
pub mod session;
pub mod text;
pub mod transcription;
pub mod worker;
