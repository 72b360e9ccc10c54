//! Voice Activity Detection: the per-frame state machine.
//!
//! Each frame is first classified as speech or silence by its RMS energy
//! against a threshold (floating point, done by the caller). This machine
//! then tracks the outcome:
//!   speech frame:  speaking, silence counter reset to 0
//!   silence frame: not speaking, silence counter + 1
//! and signals when an utterance has ended: the silence has lasted at least
//! `silence_chunks_to_end` frames (`0` disables utterance-end detection).

use vstd::prelude::*;

verus! {

/// Events emitted for each frame.
#[derive(Debug, Clone, Copy, PartialEq, Eq, Structural)]
pub enum VadEvent {
    /// This frame contained speech (energy above threshold).
    Speech,
    /// This frame was silence, but the utterance has not yet ended.
    Silence,
    /// The utterance has ended (silence reached `silence_chunks_to_end`).
    /// Also returned for every subsequent silence frame until reset.
    UtteranceEnded,
}

/// Mathematical state of the detector.
pub struct VadState {
    pub silence_chunks_to_end: nat,
    pub is_speaking: bool,
    pub silence_chunks: nat,
}

/// The state a fresh (or reset) detector is in.
pub open spec fn initial_state(silence_chunks_to_end: nat) -> VadState {
    VadState { silence_chunks_to_end, is_speaking: false, silence_chunks: 0 }
}

/// One frame: the next state and the event reported.
pub open spec fn step(s: VadState, speech: bool) -> (VadState, VadEvent) {
    if speech {
        (
            VadState { silence_chunks_to_end: s.silence_chunks_to_end, is_speaking: true, silence_chunks: 0 },
            VadEvent::Speech,
        )
    } else {
        let n = s.silence_chunks + 1;
        (
            VadState { silence_chunks_to_end: s.silence_chunks_to_end, is_speaking: false, silence_chunks: n },
            if s.silence_chunks_to_end > 0 && n >= s.silence_chunks_to_end {
                VadEvent::UtteranceEnded
            } else {
                VadEvent::Silence
            },
        )
    }
}

/// The state after a sequence of frames (`true` = speech).
pub open spec fn run(s: VadState, frames: Seq<bool>) -> VadState
    decreases frames.len(),
{
    if frames.len() == 0 {
        s
    } else {
        step(run(s, frames.drop_last()), frames.last()).0
    }
}

/// Number of silence frames at the end of a sequence.
pub open spec fn trailing_silence(frames: Seq<bool>) -> nat
    decreases frames.len(),
{
    if frames.len() == 0 {
        0
    } else if frames.last() {
        0
    } else {
        trailing_silence(frames.drop_last()) + 1
    }
}

/// Energy-based voice activity detector (the counting part).
#[derive(Debug, Clone)]
pub struct Vad {
    silence_chunks_to_end: u32,
    is_speaking: bool,
    silence_chunks: u32,
}

impl View for Vad {
    type V = VadState;

    closed spec fn view(&self) -> VadState {
        VadState {
            silence_chunks_to_end: self.silence_chunks_to_end as nat,
            is_speaking: self.is_speaking,
            silence_chunks: self.silence_chunks as nat,
        }
    }
}

impl Vad {
    /// A detector in its initial state. `silence_chunks_to_end` silence frames
    /// in a row end an utterance; `0` disables that.
    pub fn new(silence_chunks_to_end: u32) -> (r: Self)
        ensures
            r@ == initial_state(silence_chunks_to_end as nat),
    {
        Vad { silence_chunks_to_end, is_speaking: false, silence_chunks: 0 }
    }

    /// Process one frame, classified as speech or silence, and return the
    /// event.
    pub fn observe(&mut self, speech: bool) -> (ev: VadEvent)
        requires
            speech || old(self)@.silence_chunks < u32::MAX,
        ensures
            (final(self)@, ev) == step(old(self)@, speech),
    {
        if speech {
            self.is_speaking = true;
            self.silence_chunks = 0;
            VadEvent::Speech
        } else {
            self.handle_silence()
        }
    }

    fn handle_silence(&mut self) -> (ev: VadEvent)
        requires
            old(self)@.silence_chunks < u32::MAX,
        ensures
            (final(self)@, ev) == step(old(self)@, false),
    {
        self.silence_chunks = self.silence_chunks + 1;
        self.is_speaking = false;
        if self.silence_chunks_to_end > 0 && self.silence_chunks >= self.silence_chunks_to_end {
            VadEvent::UtteranceEnded
        } else {
            VadEvent::Silence
        }
    }

    /// Reset internal state (silence counter and speaking flag).
    pub fn reset(&mut self)
        ensures
            final(self)@ == initial_state(old(self)@.silence_chunks_to_end),
    {
        self.silence_chunks = 0;
        self.is_speaking = false;
    }

    /// Whether the most recent frame was classified as speech.
    pub fn is_speaking(&self) -> (b: bool)
        ensures
            b == self@.is_speaking,
    {
        self.is_speaking
    }

    /// Number of consecutive silence frames since the last speech frame (or
    /// reset).
    pub fn silence_chunks(&self) -> (n: u32)
        ensures
            n == self@.silence_chunks,
    {
        self.silence_chunks
    }
}

/// From a fresh or reset detector, the silence counter is the number of
/// silence frames since the last speech frame, the speaking flag says whether
/// the last frame was speech, and the configuration never changes.
pub proof fn lemma_silence_counter_counts_trailing_silence(to_end: nat, frames: Seq<bool>)
    ensures
        run(initial_state(to_end), frames).silence_chunks == trailing_silence(frames),
        run(initial_state(to_end), frames).is_speaking == (frames.len() > 0 && frames.last()),
        run(initial_state(to_end), frames).silence_chunks_to_end == to_end,
    decreases frames.len(),
{
    if frames.len() > 0 {
        lemma_silence_counter_counts_trailing_silence(to_end, frames.drop_last());
    }
}

/// A silence frame ends the utterance exactly when utterance-end detection is
/// on and, counting it, the silence since the last speech frame has reached
/// `silence_chunks_to_end`.
pub proof fn lemma_utterance_end_condition(to_end: nat, frames: Seq<bool>)
    ensures
        step(run(initial_state(to_end), frames), false).1 == VadEvent::UtteranceEnded <==> (to_end
            > 0 && trailing_silence(frames.push(false)) >= to_end),
{
    lemma_silence_counter_counts_trailing_silence(to_end, frames);
    assert(frames.push(false).drop_last() =~= frames);
}

/// Once an utterance has ended, every further silence frame reports
/// `UtteranceEnded` again (until a speech frame or a reset).
pub proof fn lemma_utterance_end_persists(s: VadState)
    requires
        step(s, false).1 == VadEvent::UtteranceEnded,
    ensures
        step(step(s, false).0, false).1 == VadEvent::UtteranceEnded,
{
}

/// With `silence_chunks_to_end == 0`, no frame ever reports
/// `UtteranceEnded`.
pub proof fn lemma_zero_disables_utterance_end(s: VadState, speech: bool)
    requires
        s.silence_chunks_to_end == 0,
    ensures
        step(s, speech).1 != VadEvent::UtteranceEnded,
        step(s, speech).0.silence_chunks_to_end == 0,
{
}

/// A speech frame always clears the silence counter and sets the speaking
/// flag, whatever came before.
pub proof fn lemma_speech_clears_silence(s: VadState)
    ensures
        step(s, true).0.silence_chunks == 0,
        step(s, true).0.is_speaking,
        step(s, true).1 == VadEvent::Speech,
{
}

/// A frame reports `Speech` exactly when it is speech: a silence frame
/// reports `UtteranceEnded` or `Silence`, never `Speech`, and `Silence`
/// exactly when the utterance has not ended with it.
pub proof fn lemma_event_follows_frame(s: VadState, speech: bool)
    ensures
        (step(s, speech).1 == VadEvent::Speech) == speech,
        !speech ==> (step(s, speech).1 == VadEvent::Silence || step(s, speech).1
            == VadEvent::UtteranceEnded),
        !speech ==> (step(s, speech).1 == VadEvent::Silence <==> !(s.silence_chunks_to_end > 0
            && s.silence_chunks + 1 >= s.silence_chunks_to_end)),
{
}

} // verus!
