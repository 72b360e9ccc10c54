//! The detector's frame logic. Each frame is given already classified:
//! `true` for speech (energy above the threshold), `false` for silence.

use voice_translator::vad::{Vad, VadEvent};

const SPEECH: bool = true;
const SILENCE: bool = false;

#[test]
fn detect_silence_returns_silence() {
    let mut vad = Vad::new(5);
    assert_eq!(vad.observe(SILENCE), VadEvent::Silence);
    assert!(!vad.is_speaking());
}

#[test]
fn detect_speech_returns_speech() {
    let mut vad = Vad::new(5);
    assert_eq!(vad.observe(SPEECH), VadEvent::Speech);
    assert!(vad.is_speaking());
}

#[test]
fn silence_counter_accumulates() {
    let mut vad = Vad::new(5);
    for _ in 0..7 {
        vad.observe(SILENCE);
    }
    assert_eq!(vad.silence_chunks(), 7);
}

#[test]
fn reset_clears_silence_counter() {
    let mut vad = Vad::new(5);
    for _ in 0..5 {
        vad.observe(SILENCE);
    }
    vad.reset();
    assert_eq!(vad.silence_chunks(), 0);
    assert!(!vad.is_speaking());
}

#[test]
fn vad_tests_speech_resets_silence_counter() {
    let mut vad = Vad::new(5);
    vad.observe(SILENCE);
    vad.observe(SILENCE);
    assert_eq!(vad.silence_chunks(), 2);
    vad.observe(SPEECH);
    assert_eq!(vad.silence_chunks(), 0);
}

#[test]
fn vad_tests_utterance_ends_after_configured_silence() {
    let mut vad = Vad::new(3);
    assert_eq!(vad.observe(SILENCE), VadEvent::Silence);
    assert_eq!(vad.observe(SILENCE), VadEvent::Silence);
    assert_eq!(vad.observe(SILENCE), VadEvent::UtteranceEnded);
    assert_eq!(vad.observe(SILENCE), VadEvent::UtteranceEnded);
}

#[test]
fn silence_chunks_to_end_zero_disables_ending() {
    let mut vad = Vad::new(0);
    for _ in 0..20 {
        assert_eq!(vad.observe(SILENCE), VadEvent::Silence);
    }
}

#[test]
fn silence_is_below_default_threshold() {
    let mut vad = Vad::new(5);
    assert_eq!(vad.observe(SILENCE), VadEvent::Silence);
    assert!(!vad.is_speaking());
}

#[test]
fn loud_audio_triggers_speech() {
    let mut vad = Vad::new(5);
    assert_eq!(vad.observe(SPEECH), VadEvent::Speech);
    assert!(vad.is_speaking());
    assert_eq!(vad.silence_chunks(), 0);
}

#[test]
fn silence_counter_increments() {
    let mut vad = Vad::new(5);
    for _ in 0..5 {
        vad.observe(SILENCE);
    }
    assert_eq!(vad.silence_chunks(), 5);
}

#[test]
fn reset_clears_state() {
    let mut vad = Vad::new(5);
    for _ in 0..5 {
        vad.observe(SILENCE);
    }
    vad.reset();
    assert_eq!(vad.silence_chunks(), 0);
    assert!(!vad.is_speaking());
}

#[test]
fn vad_speech_resets_silence_counter() {
    let mut vad = Vad::new(5);
    vad.observe(SILENCE);
    vad.observe(SILENCE);
    assert_eq!(vad.silence_chunks(), 2);
    vad.observe(SPEECH);
    assert_eq!(vad.silence_chunks(), 0);
}

#[test]
fn vad_utterance_ends_after_configured_silence() {
    let mut vad = Vad::new(3);
    assert_eq!(vad.observe(SILENCE), VadEvent::Silence);
    assert_eq!(vad.observe(SILENCE), VadEvent::Silence);
    assert_eq!(vad.observe(SILENCE), VadEvent::UtteranceEnded);
    assert_eq!(vad.observe(SILENCE), VadEvent::UtteranceEnded);
}

// --- further cases ---------------------------------------------------------

#[test]
fn counter_tracks_silence_since_last_speech() {
    let frames = [SILENCE, SPEECH, SILENCE, SILENCE, SPEECH, SILENCE, SILENCE, SILENCE];
    let mut vad = Vad::new(10);
    for f in frames {
        vad.observe(f);
    }
    assert_eq!(vad.silence_chunks(), 3);
    assert!(!vad.is_speaking());
}

#[test]
fn speech_after_utterance_end_starts_over() {
    let mut vad = Vad::new(2);
    vad.observe(SILENCE);
    assert_eq!(vad.observe(SILENCE), VadEvent::UtteranceEnded);
    assert_eq!(vad.observe(SPEECH), VadEvent::Speech);
    assert_eq!(vad.observe(SILENCE), VadEvent::Silence);
    assert_eq!(vad.observe(SILENCE), VadEvent::UtteranceEnded);
}
