//! Speech-to-text settings.
//!
//! The engine itself (faster-whisper, run out of process) is outside the
//! library; what stands here is its configuration and the language a
//! transcript is reported in.

use vstd::prelude::*;

verus! {

/// Transcriber configuration.
#[derive(Debug, Clone)]
pub struct TranscriptionConfig {
    /// e.g. "tiny", "base", "small", "medium"
    pub model_size: String,
    pub language: Option<String>,
    /// "cuda" or "cpu"
    pub device: String,
}

/// The views of an optional text.
pub open spec fn opt_view(o: Option<String>) -> Option<Seq<char>> {
    match o {
        Some(s) => Some(s@),
        None => None,
    }
}

impl Default for TranscriptionConfig {
    fn default() -> (r: Self)
        ensures
            r.model_size@ == "base"@,
            opt_view(r.language) == Some("zh"@),
            r.device@ == "cuda"@,
    {
        TranscriptionConfig {
            model_size: String::from_str("base"),
            language: Some(String::from_str("zh")),
            device: String::from_str("cuda"),
        }
    }
}

/// The text parts of a transcription result (its confidence score, a
/// floating-point number, is added by the caller).
pub struct Transcript {
    pub text: String,
    pub language: String,
    pub start_time_ms: u64,
    pub end_time_ms: u64,
}

/// Transcriber (faster-whisper settings).
pub struct Transcriber {
    config: TranscriptionConfig,
}

impl Transcriber {
    pub closed spec fn spec_config(&self) -> TranscriptionConfig {
        self.config
    }

    pub fn new(config: TranscriptionConfig) -> (r: Self)
        ensures
            r.spec_config() == config,
    {
        Transcriber { config }
    }

    /// The language a transcript is reported in: the configured one, or
    /// `"zh"` when none is configured.
    pub fn transcript_language(&self) -> (r: String)
        ensures
            r@ == match opt_view(self.spec_config().language) {
                Some(l) => l,
                None => "zh"@,
            },
    {
        match &self.config.language {
            Some(l) => l.clone(),
            None => String::from_str("zh"),
        }
    }

    /// What the engine reports for a chunk while it is not wired in: a fixed
    /// placeholder text in the transcript language, spanning 0 to 1000 ms.
    pub fn placeholder_transcript(&self) -> (r: Transcript)
        ensures
            r.text@ == "测试文本"@,
            r.language@ == match opt_view(self.spec_config().language) {
                Some(l) => l,
                None => "zh"@,
            },
            r.start_time_ms == 0,
            r.end_time_ms == 1000,
    {
        Transcript {
            text: String::from_str("测试文本"),
            language: self.transcript_language(),
            start_time_ms: 0,
            end_time_ms: 1000,
        }
    }
}

} // verus!
