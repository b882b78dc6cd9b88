//! Microphone capture, format negotiation and fixed-duration PCM chunking for a
//! streaming speech recognizer, together with the lifecycle rules that start,
//! tear down and reload the long-running components around it.
use vstd::prelude::*;

pub mod negotiate;
pub mod sample;
pub mod chunker;
pub mod capture;
pub mod lifecycle;
pub mod reload;
pub mod text;
pub mod config;
pub mod transcript;
pub mod handlers;
pub mod hotkey;
pub mod tray;

pub use config::Config;
pub use handlers::{ConsoleTranscriptionHandler, KeyboardTranscriptionHandler, TranscriptionHandler};
pub use transcript::TranscriptionResult;

verus! {

} // verus!
