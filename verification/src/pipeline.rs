//! End-to-end voice translation pipeline: the decisions taken for each
//! audio chunk.
//!
//! ```text
//!   audio chunk (samples)
//!        |   check_chunk: empty / too large -> PipelineError
//!        v
//!   speech-to-text (awaited by the caller)
//!        |   after_transcription: error, silence, same-language echo,
//!        v   or the translation request to send
//!   machine translation (awaited by the caller)
//!        |   after_translation
//!        v
//!   PipelineEvent
//! ```
//!
//! The pipeline holds no audio device and no background work: the caller
//! runs the two engines and hands their outcomes back here.

use vstd::prelude::*;
use std::time::Instant;
use crate::language::{Language, LanguageCode, code};
use crate::text::{trim, is_ws, is_ascii_punct, decimal, trim_str, char_is_ws, char_is_ascii_punct, decimal_string};
use crate::translation::{TranslationRequest, RequestView, TranslationResult, TranslationError, error_message, request_error};
use crate::transcription::{TranscriptionConfig, opt_view};

verus! {

/// Configuration for the end-to-end pipeline.
#[derive(Debug, Clone)]
pub struct PipelineConfig {
    /// Language the audio is in (used to hint the STT engine).
    pub source: LanguageCode,
    /// Language to translate the transcript into.
    pub target: LanguageCode,
    /// Minimum transcript length (in characters, after trim) to bother
    /// translating. Default: 1.
    pub min_transcript_chars: usize,
    /// Ceiling on the audio chunk size accepted (in samples). Default: 30 s at
    /// 16 kHz.
    pub max_chunk_samples: usize,
}

impl Default for PipelineConfig {
    fn default() -> (r: Self)
        ensures
            r.source == Language::En,
            r.target == Language::Zh,
            r.min_transcript_chars == 1,
            r.max_chunk_samples == 480_000,
    {
        PipelineConfig {
            source: Language::En,
            target: Language::Zh,
            min_transcript_chars: 1,
            max_chunk_samples: 30 * 16_000,
        }
    }
}

/// Where in the pipeline an error happened.
#[derive(Debug, Clone, Copy, PartialEq, Eq, Structural)]
pub enum PipelineStage {
    SpeechToText,
    MachineTranslation,
}

/// One event per audio chunk.
#[derive(Debug, PartialEq, Eq)]
pub enum PipelineEvent {
    /// The STT engine heard nothing useful (or the chunk was silence).
    NoSpeech {
        /// When the chunk entered the pipeline.
        at: Instant,
    },
    /// A transcript that was not translated.
    TranscriptOnly { at: Instant, text: String },
    /// Both STT and MT succeeded.
    Translated { at: Instant, stt_ms: u64, mt_ms: u64, text: String, translated: String },
    /// STT or MT failed; `stage` says which.
    Error { at: Instant, stage: PipelineStage, message: String },
}

/// Mathematical form of a [`PipelineEvent`].
pub enum EventView {
    NoSpeech { at: Instant },
    TranscriptOnly { at: Instant, text: Seq<char> },
    Translated { at: Instant, stt_ms: u64, mt_ms: u64, text: Seq<char>, translated: Seq<char> },
    Error { at: Instant, stage: PipelineStage, message: Seq<char> },
}

impl View for PipelineEvent {
    type V = EventView;

    open spec fn view(&self) -> EventView {
        match self {
            PipelineEvent::NoSpeech { at } => EventView::NoSpeech { at: *at },
            PipelineEvent::TranscriptOnly { at, text } => EventView::TranscriptOnly {
                at: *at,
                text: text@,
            },
            PipelineEvent::Translated { at, stt_ms, mt_ms, text, translated } => {
                EventView::Translated {
                    at: *at,
                    stt_ms: *stt_ms,
                    mt_ms: *mt_ms,
                    text: text@,
                    translated: translated@,
                }
            },
            PipelineEvent::Error { at, stage, message } => EventView::Error {
                at: *at,
                stage: *stage,
                message: message@,
            },
        }
    }
}

impl Clone for PipelineEvent {
    fn clone(&self) -> (r: Self)
        ensures
            r@ == self@,
    {
        match self {
            PipelineEvent::NoSpeech { at } => PipelineEvent::NoSpeech { at: *at },
            PipelineEvent::TranscriptOnly { at, text } => PipelineEvent::TranscriptOnly {
                at: *at,
                text: text.clone(),
            },
            PipelineEvent::Translated { at, stt_ms, mt_ms, text, translated } => {
                PipelineEvent::Translated {
                    at: *at,
                    stt_ms: *stt_ms,
                    mt_ms: *mt_ms,
                    text: text.clone(),
                    translated: translated.clone(),
                }
            },
            PipelineEvent::Error { at, stage, message } => PipelineEvent::Error {
                at: *at,
                stage: *stage,
                message: message.clone(),
            },
        }
    }
}

/// Pipeline-side errors (the ones the pipeline detects itself, as opposed to
/// STT/MT errors, which surface as [`PipelineEvent::Error`]).
#[derive(Debug, Clone, PartialEq, Eq, Structural)]
pub enum PipelineError {
    /// Audio chunk exceeds the configured safety cap.
    ChunkTooLarge { samples: usize, max: usize },
    /// Chunk is empty.
    EmptyChunk,
}

/// The human-readable message of a pipeline error.
pub open spec fn pipeline_error_message(e: PipelineError) -> Seq<char> {
    match e {
        PipelineError::ChunkTooLarge { samples, max } => "audio chunk too large: "@ + decimal(
            samples as nat,
        ) + " samples (max "@ + decimal(max as nat) + ")"@,
        PipelineError::EmptyChunk => "audio chunk is empty"@,
    }
}

impl PipelineError {
    /// The human-readable message of this error.
    pub fn message(&self) -> (r: String)
        ensures
            r@ == pipeline_error_message(*self),
    {
        match self {
            PipelineError::ChunkTooLarge { samples, max } => {
                let s = decimal_string(*samples as u64);
                let m = decimal_string(*max as u64);
                String::from_str("audio chunk too large: ").concat(s.as_str()).concat(
                    " samples (max ",
                ).concat(m.as_str()).concat(")")
            },
            PipelineError::EmptyChunk => String::from_str("audio chunk is empty"),
        }
    }
}

/// Whether every character is whitespace or ASCII punctuation.
pub open spec fn all_quiet(s: Seq<char>) -> bool {
    forall|i: int| 0 <= i < s.len() ==> is_ws(#[trigger] s[i]) || is_ascii_punct(s[i])
}

/// What the pipeline does once the transcript (or the STT error) is known.
pub enum AfterTranscription {
    /// The chunk is finished with this event.
    Finished(PipelineEvent),
    /// The transcript is to be translated with this request.
    Translate(TranslationRequest),
}

/// Mathematical form of an [`AfterTranscription`].
pub enum AfterTranscriptionView {
    Finished(EventView),
    Translate(RequestView),
}

impl View for AfterTranscription {
    type V = AfterTranscriptionView;

    open spec fn view(&self) -> AfterTranscriptionView {
        match self {
            AfterTranscription::Finished(e) => AfterTranscriptionView::Finished(e@),
            AfterTranscription::Translate(r) => AfterTranscriptionView::Translate(r@),
        }
    }
}

/// The decision after speech-to-text, for transcript `t` (or STT error).
pub open spec fn after_transcription_spec(
    config: PipelineConfig,
    at: Instant,
    stt_ms: u64,
    transcript: Result<Seq<char>, Seq<char>>,
) -> AfterTranscriptionView {
    match transcript {
        Err(e) => AfterTranscriptionView::Finished(
            EventView::Error { at, stage: PipelineStage::SpeechToText, message: e },
        ),
        Ok(t) => {
            let text = trim(t);
            if text.len() < config.min_transcript_chars {
                AfterTranscriptionView::Finished(EventView::NoSpeech { at })
            } else if text.len() == 0 || all_quiet(text) {
                AfterTranscriptionView::Finished(EventView::NoSpeech { at })
            } else if config.source == config.target {
                AfterTranscriptionView::Finished(
                    EventView::Translated { at, stt_ms, mt_ms: 0, text, translated: text },
                )
            } else {
                AfterTranscriptionView::Translate(
                    RequestView { text, source: config.source, target: config.target },
                )
            }
        },
    }
}

/// The event after machine translation of `text`.
pub open spec fn after_translation_spec(
    at: Instant,
    stt_ms: u64,
    text: Seq<char>,
    mt_ms: u64,
    outcome: Result<Seq<char>, Seq<char>>,
) -> EventView {
    match outcome {
        Ok(translated) => EventView::Translated { at, stt_ms, mt_ms, text, translated },
        Err(message) => EventView::Error { at, stage: PipelineStage::MachineTranslation, message },
    }
}

/// The views of an STT outcome.
pub open spec fn stt_view(r: Result<String, String>) -> Result<Seq<char>, Seq<char>> {
    match r {
        Ok(t) => Ok(t@),
        Err(e) => Err(e@),
    }
}

/// The views of an MT outcome: the translated text, or the error's message.
pub open spec fn mt_view(r: Result<TranslationResult, TranslationError>) -> Result<Seq<char>, Seq<char>> {
    match r {
        Ok(res) => Ok(res.translated@),
        Err(e) => Err(error_message(e@)),
    }
}

/// Whether the text is all whitespace or ASCII punctuation.
fn is_quiet(s: &str) -> (b: bool)
    ensures
        b == all_quiet(s@),
{
    let n = s.unicode_len();
    let mut i: usize = 0;
    while i < n
        invariant
            i <= n,
            n == s@.len(),
            forall|k: int| 0 <= k < i ==> is_ws(#[trigger] s@[k]) || is_ascii_punct(s@[k]),
        decreases n - i,
    {
        let c = s.get_char(i);
        if !(char_is_ws(c) || char_is_ascii_punct(c)) {
            return false;
        }
        i = i + 1;
    }
    true
}

/// The end-to-end pipeline. Reusable across many chunks (no state is changed
/// between calls).
pub struct Pipeline {
    config: PipelineConfig,
}

impl Pipeline {
    pub closed spec fn spec_config(&self) -> PipelineConfig {
        self.config
    }

    /// Create a new pipeline with the given config.
    pub fn new(config: PipelineConfig) -> (r: Self)
        ensures
            r.spec_config() == config,
    {
        Pipeline { config }
    }

    /// Borrow the active config.
    pub fn config(&self) -> (r: &PipelineConfig)
        ensures
            *r == self.spec_config(),
    {
        &self.config
    }

    /// The chunk-size checks, applied before anything else: an empty chunk
    /// and one over `max_chunk_samples` are refused.
    pub fn check_chunk(&self, samples: usize) -> (r: Result<(), PipelineError>)
        ensures
            samples == 0 ==> r == Err::<(), PipelineError>(PipelineError::EmptyChunk),
            samples != 0 && samples > self.spec_config().max_chunk_samples ==> r == Err::<
                (),
                PipelineError,
            >(
                PipelineError::ChunkTooLarge {
                    samples,
                    max: self.spec_config().max_chunk_samples,
                },
            ),
            samples != 0 && samples <= self.spec_config().max_chunk_samples ==> r is Ok,
    {
        if samples == 0 {
            return Err(PipelineError::EmptyChunk);
        }
        if samples > self.config.max_chunk_samples {
            return Err(
                PipelineError::ChunkTooLarge { samples, max: self.config.max_chunk_samples },
            );
        }
        Ok(())
    }

    /// The decision once speech-to-text is done. An STT error becomes an
    /// error event; a transcript that is shorter than `min_transcript_chars`
    /// (after trimming) or only whitespace and punctuation is silence; with
    /// equal source and target the transcript is echoed back without
    /// translation; otherwise the trimmed transcript is to be translated.
    pub fn after_transcription(
        &self,
        at: Instant,
        stt_ms: u64,
        transcript: Result<String, String>,
    ) -> (r: AfterTranscription)
        ensures
            r@ == after_transcription_spec(self.spec_config(), at, stt_ms, stt_view(transcript)),
    {
        let t = match transcript {
            Err(e) => {
                return AfterTranscription::Finished(
                    PipelineEvent::Error { at, stage: PipelineStage::SpeechToText, message: e },
                );
            },
            Ok(t) => t,
        };
        let text_ref = trim_str(t.as_str());
        let n = text_ref.unicode_len();
        if n < self.config.min_transcript_chars {
            return AfterTranscription::Finished(PipelineEvent::NoSpeech { at });
        }
        if n == 0 || is_quiet(text_ref) {
            return AfterTranscription::Finished(PipelineEvent::NoSpeech { at });
        }
        let text = String::from_str(text_ref);
        if self.config.source == self.config.target {
            let echoed = text.clone();
            return AfterTranscription::Finished(
                PipelineEvent::Translated { at, stt_ms, mt_ms: 0, text, translated: echoed },
            );
        }
        AfterTranscription::Translate(
            TranslationRequest::new(text.as_str(), self.config.source, self.config.target),
        )
    }

    /// The event once machine translation of `text` is done: the translation,
    /// or an error event carrying the translator's message.
    pub fn after_translation(
        &self,
        at: Instant,
        stt_ms: u64,
        text: String,
        mt_ms: u64,
        outcome: Result<TranslationResult, TranslationError>,
    ) -> (r: PipelineEvent)
        ensures
            r@ == after_translation_spec(at, stt_ms, text@, mt_ms, mt_view(outcome)),
    {
        match outcome {
            Ok(res) => PipelineEvent::Translated {
                at,
                stt_ms,
                mt_ms,
                text,
                translated: res.translated,
            },
            Err(e) => PipelineEvent::Error {
                at,
                stage: PipelineStage::MachineTranslation,
                message: e.message(),
            },
        }
    }
}

/// Whatever the transcript, a request the pipeline hands to the translator
/// passes the shared request checks on blank text and equal languages: its
/// text is the non-blank trimmed transcript and its languages differ.
pub proof fn lemma_pipeline_requests_are_well_formed(
    config: PipelineConfig,
    at: Instant,
    stt_ms: u64,
    transcript: Result<Seq<char>, Seq<char>>,
)
    ensures
        after_transcription_spec(config, at, stt_ms, transcript) matches AfterTranscriptionView::Translate(req) ==> {
            &&& trim(req.text) == req.text
            &&& req.text.len() > 0
            &&& req.source != req.target
            &&& request_error(req, None) is None
        },
{
    if let Ok(t) = transcript {
        crate::text::lemma_trim_idempotent(t);
    }
}

/// When source and target are the same language, a transcript that is not
/// silence comes back as a `Translated` event whose translation is the
/// trimmed transcript itself, and no translation is asked for.
pub proof fn lemma_same_language_echoes(
    config: PipelineConfig,
    at: Instant,
    stt_ms: u64,
    t: Seq<char>,
)
    requires
        config.source == config.target,
        trim(t).len() >= config.min_transcript_chars,
        trim(t).len() > 0,
        !all_quiet(trim(t)),
    ensures
        after_transcription_spec(config, at, stt_ms, Ok(t)) == AfterTranscriptionView::Finished(
            EventView::Translated { at, stt_ms, mt_ms: 0, text: trim(t), translated: trim(t) },
        ),
{
}

/// A transcript that, once trimmed, is long enough and holds a character
/// that is neither whitespace nor ASCII punctuation is speech, never
/// silence: between different languages it becomes a request to translate
/// exactly the trimmed transcript from the source to the target language.
/// Conversely, silence is reported for a transcript only when, once trimmed,
/// it is too short or every character in it is whitespace or ASCII
/// punctuation.
pub proof fn lemma_speech_is_translated(
    config: PipelineConfig,
    at: Instant,
    stt_ms: u64,
    t: Seq<char>,
)
    ensures
        ({
            let text = trim(t);
            (text.len() >= config.min_transcript_chars && config.source != config.target
                && exists|i: int|
                0 <= i < text.len() && !is_ws(#[trigger] text[i]) && !is_ascii_punct(text[i]))
                ==> after_transcription_spec(config, at, stt_ms, Ok(t))
                == AfterTranscriptionView::Translate(
                RequestView { text, source: config.source, target: config.target },
            )
        }),
        after_transcription_spec(config, at, stt_ms, Ok(t)) == AfterTranscriptionView::Finished(
            EventView::NoSpeech { at },
        ) ==> trim(t).len() < config.min_transcript_chars || forall|i: int|
            0 <= i < trim(t).len() ==> is_ws(#[trigger] trim(t)[i]) || is_ascii_punct(trim(t)[i]),
{
    let text = trim(t);
    if exists|i: int| 0 <= i < text.len() && !is_ws(#[trigger] text[i]) && !is_ascii_punct(text[i]) {
        let i = choose|i: int| 0 <= i < text.len() && !is_ws(#[trigger] text[i]) && !is_ascii_punct(text[i]);
        assert(!all_quiet(text));
    }
}

/// A failed speech-to-text run never asks for a translation: the chunk
/// ends with an error event at the speech-to-text stage carrying the
/// failure's message, whatever the configuration.
pub proof fn lemma_stt_failure_is_reported(
    config: PipelineConfig,
    at: Instant,
    stt_ms: u64,
    message: Seq<char>,
)
    ensures
        after_transcription_spec(config, at, stt_ms, Err(message))
            matches AfterTranscriptionView::Finished(EventView::Error { at: a, stage, message: m })
            && a == at && stage == PipelineStage::SpeechToText && m == message,
{
}

/// After machine translation the chunk ends as a `Translated` event pairing
/// the transcript with the translation, or, when translation failed, as an
/// error event at the translation stage carrying the failure's message.
pub proof fn lemma_translation_outcome_is_reported(
    at: Instant,
    stt_ms: u64,
    text: Seq<char>,
    mt_ms: u64,
    outcome: Result<Seq<char>, Seq<char>>,
)
    ensures
        outcome matches Ok(tr) ==> after_translation_spec(at, stt_ms, text, mt_ms, outcome)
            matches EventView::Translated { text: t, translated, stt_ms: s, mt_ms: m, .. }
            && t == text && translated == tr && s == stt_ms && m == mt_ms,
        outcome matches Err(e) ==> after_translation_spec(at, stt_ms, text, mt_ms, outcome)
            matches EventView::Error { stage, message, .. }
            && stage == PipelineStage::MachineTranslation && message == e,
{
}

/// Default STT runner settings: the in-process transcriber with the base
/// model on the CPU, hinted with the pipeline's source language.
pub struct DefaultTranscriberRunner;

impl DefaultTranscriberRunner {
    /// The transcriber configuration used for a chunk in `hint_language`.
    pub fn config_for(hint_language: LanguageCode) -> (r: TranscriptionConfig)
        ensures
            r.model_size@ == "base"@,
            opt_view(r.language) == Some(code(hint_language)),
            r.device@ == "cpu"@,
    {
        TranscriptionConfig {
            model_size: String::from_str("base"),
            language: Some(String::from_str(hint_language.as_str())),
            device: String::from_str("cpu"),
        }
    }
}

} // verus!
