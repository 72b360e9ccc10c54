//! Voice Translator - real-time speech translation, the verified core.
//!
//! Architecture:
//! 1. Audio capture (real-time microphone input) - settings in [`audio`]
//! 2. Voice Activity Detection to detect speech segments - [`vad`]
//! 3. Speech-to-Text - settings in [`transcription`]
//! 4. Translation via API or the offline stub - [`translation`], [`cloud`]
//! 5. Display of the results - state in [`ui`]
//!
//! The per-chunk decisions of the end-to-end pipeline live in [`pipeline`];
//! the command line of the desktop frontend in [`cli`].

pub mod audio;
pub mod cli;
pub mod clock;
pub mod cloud;
pub mod language;
pub mod pipeline;
pub mod text;
pub mod transcription;
pub mod translation;
pub mod ui;
pub mod vad;

pub use pipeline::{Pipeline, PipelineConfig, PipelineEvent, PipelineStage};
pub use transcription::Transcriber;
pub use translation::{CloudTranslator, LanguageCode, StubTranslator};
pub use vad::{Vad, VadEvent};
