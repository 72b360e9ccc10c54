//! State of the desktop frontend: the rolling transcript / translation log,
//! the language selection, the run state, and the event sources.
//!
//! A worker (the event source) pushes [`PipelineEvent`]s into a channel; the
//! app drains the channel every frame into a bounded [`UiLog`] (capped at
//! [`UiLog::DEFAULT_CAPACITY`] entries to bound memory). Rendering, the
//! worker thread and the pacing between events are done by the caller.

use vstd::prelude::*;
use std::sync::mpsc::{Receiver, TryRecvError};
use std::time::{Duration, Instant};
use crate::clock::{now, duration_from_millis, duration_from_secs, millis_duration, secs_duration};
use crate::language::{Language, LanguageCode};
use crate::pipeline::{EventView, PipelineConfig, PipelineEvent, PipelineStage};

verus! {

/// `std::sync::mpsc::Receiver`, the receiving half of the worker's channel.
#[verifier::external_type_specification]
#[verifier::external_body]
#[verifier::reject_recursive_types(T)]
pub struct ExReceiver<T>(Receiver<T>);

/// What one poll of the channel gave.
pub enum Polled {
    Event(PipelineEvent),
    Empty,
    Disconnected,
}

/// Mathematical form of a poll's outcome.
pub enum PolledView {
    Event(EventView),
    Empty,
    Disconnected,
}

impl View for Polled {
    type V = PolledView;

    open spec fn view(&self) -> PolledView {
        match self {
            Polled::Event(e) => PolledView::Event(e@),
            Polled::Empty => PolledView::Empty,
            Polled::Disconnected => PolledView::Disconnected,
        }
    }
}

/// Calls `Receiver::try_recv`. What it gives depends on the worker thread,
/// so nothing is claimed of the outcome.
#[verifier::external_body]
fn poll_receiver(rx: &Receiver<PipelineEvent>) -> Polled {
    match rx.try_recv() {
        Ok(ev) => Polled::Event(ev),
        Err(TryRecvError::Empty) => Polled::Empty,
        Err(TryRecvError::Disconnected) => Polled::Disconnected,
    }
}

/// Kind of a log row, for colour-coding / filtering.
#[derive(Debug, Clone, Copy, PartialEq, Eq, Structural)]
pub enum EntryStage {
    NoSpeech,
    Transcript,
    Translated,
    Error,
}

/// One row in the on-screen transcript / translation log.
#[derive(Debug, PartialEq, Eq)]
pub struct UiLogEntry {
    /// When the event landed in the UI.
    pub at: Instant,
    /// Pipeline stage the entry came from.
    pub stage: EntryStage,
    /// Original transcript (if any) and the translation.
    pub text: String,
    pub translated: String,
}

/// Mathematical form of a log row (its time stamp aside).
pub struct EntryView {
    pub stage: EntryStage,
    pub text: Seq<char>,
    pub translated: Seq<char>,
}

impl Clone for UiLogEntry {
    fn clone(&self) -> (r: Self)
        ensures
            r@ == self@,
            r.at == self.at,
    {
        UiLogEntry {
            at: self.at,
            stage: self.stage,
            text: self.text.clone(),
            translated: self.translated.clone(),
        }
    }
}

impl View for UiLogEntry {
    type V = EntryView;

    open spec fn view(&self) -> EntryView {
        EntryView { stage: self.stage, text: self.text@, translated: self.translated@ }
    }
}

/// The name a pipeline stage is shown with (its `Debug` form).
pub open spec fn stage_name(stage: PipelineStage) -> Seq<char> {
    match stage {
        PipelineStage::SpeechToText => "SpeechToText"@,
        PipelineStage::MachineTranslation => "MachineTranslation"@,
    }
}

/// The log row an event becomes.
pub open spec fn entry_of(e: EventView) -> EntryView {
    match e {
        EventView::NoSpeech { .. } => EntryView {
            stage: EntryStage::NoSpeech,
            text: seq![],
            translated: seq![],
        },
        EventView::TranscriptOnly { text, .. } => EntryView {
            stage: EntryStage::Transcript,
            text,
            translated: seq![],
        },
        EventView::Translated { text, translated, .. } => EntryView {
            stage: EntryStage::Translated,
            text,
            translated,
        },
        EventView::Error { stage, message, .. } => EntryView {
            stage: EntryStage::Error,
            text: stage_name(stage) + ": "@ + message,
            translated: seq![],
        },
    }
}

impl UiLogEntry {
    /// The log row for an event, stamped with the current time.
    pub fn from_event(event: &PipelineEvent) -> (r: Self)
        ensures
            r@ == entry_of(event@),
    {
        match event {
            PipelineEvent::NoSpeech { .. } => UiLogEntry {
                at: now(),
                stage: EntryStage::NoSpeech,
                text: String::new(),
                translated: String::new(),
            },
            PipelineEvent::TranscriptOnly { text, .. } => UiLogEntry {
                at: now(),
                stage: EntryStage::Transcript,
                text: text.clone(),
                translated: String::new(),
            },
            PipelineEvent::Translated { text, translated, .. } => UiLogEntry {
                at: now(),
                stage: EntryStage::Translated,
                text: text.clone(),
                translated: translated.clone(),
            },
            PipelineEvent::Error { stage, message, .. } => {
                let name = match stage {
                    PipelineStage::SpeechToText => "SpeechToText",
                    PipelineStage::MachineTranslation => "MachineTranslation",
                };
                UiLogEntry {
                    at: now(),
                    stage: EntryStage::Error,
                    text: String::from_str(name).concat(": ").concat(message.as_str()),
                    translated: String::new(),
                }
            },
        }
    }
}

/// The last `c` elements of `s` (all of `s` when it is shorter).
pub open spec fn keep_last<A>(s: Seq<A>, c: nat) -> Seq<A> {
    if s.len() > c {
        s.subrange(s.len() - c, s.len() as int)
    } else {
        s
    }
}

/// Mathematical form of a log: its rows, oldest first, and its capacity.
pub struct LogView {
    pub entries: Seq<EntryView>,
    pub capacity: nat,
}

/// The log after one push: the row appended, then the oldest rows dropped
/// down to the capacity.
pub open spec fn log_push(l: LogView, e: EntryView) -> LogView {
    LogView { entries: keep_last(l.entries.push(e), l.capacity), capacity: l.capacity }
}

/// The log after pushing rows in order.
pub open spec fn log_push_all(l: LogView, es: Seq<EntryView>) -> LogView
    decreases es.len(),
{
    if es.len() == 0 {
        l
    } else {
        log_push(log_push_all(l, es.drop_last()), es.last())
    }
}

/// Bounded rolling log.
#[derive(Debug)]
pub struct UiLog {
    entries: Vec<UiLogEntry>,
    capacity: usize,
}

impl View for UiLog {
    type V = LogView;

    closed spec fn view(&self) -> LogView {
        LogView {
            entries: self.entries@.map_values(|e: UiLogEntry| e@),
            capacity: self.capacity as nat,
        }
    }
}

impl Clone for UiLog {
    fn clone(&self) -> (r: Self)
        ensures
            r@ == self@,
            r.spec_stamps() == self.spec_stamps(),
    {
        proof {
            use_type_invariant(self);
        }
        let mut entries: Vec<UiLogEntry> = Vec::new();
        let mut i: usize = 0;
        while i < self.entries.len()
            invariant
                i <= self.entries.len(),
                self.entries.len() <= self.capacity,
                entries@.len() == i,
                forall|k: int| 0 <= k < i ==> (#[trigger] entries@[k])@ == self.entries@[k]@,
                forall|k: int| 0 <= k < i ==> (#[trigger] entries@[k]).at == self.entries@[k].at,
            decreases self.entries.len() - i,
        {
            entries.push(self.entries[i].clone());
            i = i + 1;
        }
        assert(entries@.map_values(|e: UiLogEntry| e@) =~= self.entries@.map_values(
            |e: UiLogEntry| e@,
        ));
        assert(entries@.map_values(|e: UiLogEntry| e.at) =~= self.entries@.map_values(
            |e: UiLogEntry| e.at,
        ));
        UiLog { entries, capacity: self.capacity }
    }
}

impl Default for UiLog {
    fn default() -> (r: Self)
        ensures
            r@.entries.len() == 0,
            r@.capacity == 200,
            r.spec_stamps().len() == 0,
    {
        UiLog { entries: Vec::new(), capacity: Self::DEFAULT_CAPACITY }
    }
}

impl UiLog {
    /// A log never holds more rows than its capacity.
    #[verifier::type_invariant]
    spec fn within_capacity(self) -> bool {
        self.entries.len() <= self.capacity
    }

    /// When each row, oldest first, landed in the log (the rows' `at`).
    pub closed spec fn spec_stamps(&self) -> Seq<Instant> {
        self.entries@.map_values(|e: UiLogEntry| e.at)
    }

    /// 200 rows is enough to fill a 1080p screen a few times over and still
    /// keep scrolling smooth.
    pub const DEFAULT_CAPACITY: usize = 200;

    pub fn with_capacity(capacity: usize) -> (r: Self)
        ensures
            r@.entries.len() == 0,
            r@.capacity == capacity,
            r.spec_stamps().len() == 0,
    {
        UiLog { entries: Vec::with_capacity(capacity), capacity }
    }

    /// Append a row, dropping the oldest rows beyond the capacity.
    pub fn push(&mut self, entry: UiLogEntry)
        ensures
            final(self)@ == log_push(old(self)@, entry@),
            final(self).spec_stamps() == keep_last(
                old(self).spec_stamps().push(entry.at),
                old(self)@.capacity,
            ),
    {
        proof {
            use_type_invariant(&*self);
        }
        let ghost e = entry@;
        let ghost at = entry.at;
        let mut entries: Vec<UiLogEntry> = Vec::new();
        std::mem::swap(&mut entries, &mut self.entries);
        entries.push(entry);
        if entries.len() > self.capacity {
            let excess = entries.len() - self.capacity;
            entries = entries.split_off(excess);
        }
        assert(entries@.map_values(|x: UiLogEntry| x@) =~= keep_last(
            old(self)@.entries.push(e),
            old(self)@.capacity,
        ));
        assert(entries@.map_values(|x: UiLogEntry| x.at) =~= keep_last(
            old(self).spec_stamps().push(at),
            old(self)@.capacity,
        ));
        self.entries = entries;
    }

    /// Remove every row.
    pub fn clear(&mut self)
        ensures
            final(self)@ == (LogView { entries: seq![], capacity: old(self)@.capacity }),
            final(self).spec_stamps().len() == 0,
    {
        self.entries = Vec::new();
        assert(self@.entries =~= seq![]);
        assert(self.spec_stamps() =~= seq![]);
    }

    /// The number of rows, which never exceeds the capacity.
    pub fn len(&self) -> (n: usize)
        ensures
            n == self@.entries.len(),
            n <= self@.capacity,
    {
        proof {
            use_type_invariant(self);
        }
        self.entries.len()
    }

    pub fn is_empty(&self) -> (b: bool)
        ensures
            b == (self@.entries.len() == 0),
    {
        self.entries.len() == 0
    }

    /// The rows, oldest first.
    pub fn iter(&self) -> (r: std::slice::Iter<'_, UiLogEntry>)
        ensures
            vstd::std_specs::slice::into_iter_elts(r).map_values(|e: UiLogEntry| e@)
                == self@.entries,
            vstd::std_specs::slice::into_iter_elts(r).map_values(|e: UiLogEntry| e.at)
                == self.spec_stamps(),
    {
        proof {
            broadcast use vstd::std_specs::slice::axiom_spec_slice_iter;
        }
        let it = self.entries.as_slice().iter();
        assert(vstd::std_specs::slice::into_iter_elts(it) =~= self.entries@);
        it
    }
}

proof fn lemma_keep_last_push<A>(s: Seq<A>, x: A, c: nat)
    ensures
        keep_last(keep_last(s, c).push(x), c) == keep_last(s.push(x), c),
{
    if s.len() > c {
        assert(keep_last(keep_last(s, c).push(x), c) =~= keep_last(s.push(x), c));
    }
}

/// The rolling-log law: after any pushes into a log holding at most its
/// capacity, the log holds exactly the newest `capacity` rows of everything
/// it held and was given, oldest first; so it never exceeds its capacity.
pub proof fn lemma_log_keeps_newest(l: LogView, es: Seq<EntryView>)
    requires
        l.entries.len() <= l.capacity,
    ensures
        log_push_all(l, es) == (LogView {
            entries: keep_last(l.entries + es, l.capacity),
            capacity: l.capacity,
        }),
        log_push_all(l, es).entries.len() <= l.capacity,
    decreases es.len(),
{
    if es.len() > 0 {
        lemma_log_keeps_newest(l, es.drop_last());
        lemma_keep_last_push(l.entries + es.drop_last(), es.last(), l.capacity);
        assert((l.entries + es.drop_last()).push(es.last()) =~= l.entries + es);
    } else {
        assert(l.entries + es =~= l.entries);
    }
}

/// Source-language / target-language selection the user has made.
#[derive(Debug, Clone, Copy, PartialEq, Eq, Structural)]
pub struct UiLanguageSelection {
    pub source: LanguageCode,
    pub target: LanguageCode,
}

impl Default for UiLanguageSelection {
    fn default() -> (r: Self)
        ensures
            r.source == Language::En,
            r.target == Language::Zh,
    {
        UiLanguageSelection { source: Language::En, target: Language::Zh }
    }
}

/// Whether the worker is alive.
#[derive(Debug, Clone, Copy, PartialEq, Eq, Structural)]
pub enum RunState {
    /// No worker. The user can click "Start".
    Stopped,
    /// Worker is producing events.
    Running,
    /// User clicked Stop; the worker is finishing its current chunk.
    Stopping,
}

impl RunState {
    pub fn is_running(self) -> (b: bool)
        ensures
            b == (self == RunState::Running),
    {
        match self {
            RunState::Running => true,
            _ => false,
        }
    }
}

/// The events of the built-in demo, all stamped `at`.
pub open spec fn demo_events(at: Instant) -> Seq<EventView> {
    seq![
        EventView::TranscriptOnly { at, text: "Hello"@ },
        EventView::Translated { at, stt_ms: 120, mt_ms: 80, text: "Hello"@, translated: "你好"@ },
        EventView::TranscriptOnly { at, text: "How are you today?"@ },
        EventView::Translated {
            at,
            stt_ms: 210,
            mt_ms: 95,
            text: "How are you today?"@,
            translated: "你今天怎么样？"@,
        },
        EventView::NoSpeech { at },
        EventView::Error {
            at,
            stage: PipelineStage::MachineTranslation,
            message: "demo: simulated network timeout"@,
        },
    ]
}

/// The views of a list of events.
pub open spec fn event_views(v: Seq<PipelineEvent>) -> Seq<EventView> {
    v.map_values(|e: PipelineEvent| e@)
}

/// Event source that replays a fixed list of events, cycling through it, at
/// a fixed pace.
pub struct MockBackend {
    pub events: Vec<PipelineEvent>,
    pub interval: Duration,
    pub stop_after: Option<usize>,
}

impl Default for MockBackend {
    /// The demo: every kind of event once, 900 ms apart, until stopped.
    fn default() -> (r: Self)
        ensures
            exists|at: Instant| event_views(r.events@) == demo_events(at),
            r.stop_after is None,
            r.interval == millis_duration(900),
    {
        let started = now();
        let mut events: Vec<PipelineEvent> = Vec::new();
        events.push(PipelineEvent::TranscriptOnly { at: started, text: String::from_str("Hello") });
        events.push(
            PipelineEvent::Translated {
                at: started,
                stt_ms: 120,
                mt_ms: 80,
                text: String::from_str("Hello"),
                translated: String::from_str("你好"),
            },
        );
        events.push(
            PipelineEvent::TranscriptOnly {
                at: started,
                text: String::from_str("How are you today?"),
            },
        );
        events.push(
            PipelineEvent::Translated {
                at: started,
                stt_ms: 210,
                mt_ms: 95,
                text: String::from_str("How are you today?"),
                translated: String::from_str("你今天怎么样？"),
            },
        );
        events.push(PipelineEvent::NoSpeech { at: started });
        events.push(
            PipelineEvent::Error {
                at: started,
                stage: PipelineStage::MachineTranslation,
                message: String::from_str("demo: simulated network timeout"),
            },
        );
        assert(event_views(events@) =~= demo_events(started));
        MockBackend { events, interval: duration_from_millis(900), stop_after: None }
    }
}

impl MockBackend {
    /// The event to send after `emitted` events were sent: the list is
    /// replayed in a cycle.
    pub fn event_at(&self, emitted: usize) -> (r: PipelineEvent)
        requires
            self.events@.len() > 0,
        ensures
            r@ == self.events@[emitted as int % self.events@.len() as int]@,
    {
        let i = emitted % self.events.len();
        self.events[i].clone()
    }

    /// After a send: the number of events sent so far when the replay goes
    /// on, or `None` when it stops, because the receiver is gone, the
    /// `stop_after` limit is reached, or the deadline has passed.
    pub fn after_send(&self, emitted: usize, sent: bool, past_deadline: bool) -> (r: Option<usize>)
        requires
            sent ==> emitted < usize::MAX,
        ensures
            !sent ==> r is None,
            sent ==> match self.stop_after {
                Some(limit) if emitted + 1 >= limit => r is None,
                _ => if past_deadline {
                    r is None
                } else {
                    r == Some((emitted + 1) as usize)
                },
            },
    {
        if !sent {
            return None;
        }
        let next = emitted + 1;
        match self.stop_after {
            Some(limit) => {
                if next >= limit {
                    return None;
                }
            },
            None => {},
        }
        if past_deadline {
            return None;
        }
        Some(next)
    }
}

/// Event source that runs the pipeline on synthetic one-second chunks.
pub struct RealtimeBackend {
    pub config: PipelineConfig,
    /// Samples per chunk (16 kHz mono, 1 second).
    pub chunk_samples: usize,
    /// Ceiling on wall-clock time the backend is allowed to run.
    pub budget: Duration,
}

impl Default for RealtimeBackend {
    fn default() -> (r: Self)
        ensures
            r.config.source == Language::En,
            r.config.target == Language::Zh,
            r.config.min_transcript_chars == 1,
            r.config.max_chunk_samples == 480_000,
            r.chunk_samples == 16_000,
            r.budget == secs_duration(3600),
    {
        RealtimeBackend {
            config: PipelineConfig::default(),
            chunk_samples: 16_000,
            budget: duration_from_secs(3600),
        }
    }
}

impl RealtimeBackend {
    /// The event sent for one chunk: the pipeline's event, or, when the
    /// pipeline could not run, an error event at the speech-to-text stage.
    pub fn outcome_event(at: Instant, outcome: Result<PipelineEvent, String>) -> (r: PipelineEvent)
        ensures
            match outcome {
                Ok(ev) => r == ev,
                Err(m) => r@ == (EventView::Error {
                    at,
                    stage: PipelineStage::SpeechToText,
                    message: m@,
                }),
            },
    {
        match outcome {
            Ok(ev) => ev,
            Err(message) => PipelineEvent::Error { at, stage: PipelineStage::SpeechToText, message },
        }
    }
}

/// The log after pushing the rows of some events, in order.
pub open spec fn log_after_events(l: LogView, evs: Seq<EventView>) -> LogView {
    log_push_all(l, evs.map_values(|e: EventView| entry_of(e)))
}

/// The frontend's state: the receiver of the worker's events, the rolling
/// log and the current run state.
pub struct VoiceTranslatorApp {
    pub log: UiLog,
    pub selection: UiLanguageSelection,
    pub run_state: RunState,
    pub status_message: String,
    /// Receiving half of the running worker's channel, if any.
    pub rx: Option<Receiver<PipelineEvent>>,
    /// Channel depth handed to the worker.
    pub channel_capacity: usize,
    /// How long a single worker run lasts before it exits.
    pub worker_budget: Duration,
}

impl Default for VoiceTranslatorApp {
    fn default() -> (r: Self)
        ensures
            r.log@.entries.len() == 0,
            r.log@.capacity == 200,
            r.selection.source == Language::En,
            r.selection.target == Language::Zh,
            r.run_state == RunState::Stopped,
            r.status_message@ == "Idle. Click Start to begin."@,
            !r.spec_has_receiver(),
            r.channel_capacity == 64,
            r.worker_budget == secs_duration(30),
    {
        VoiceTranslatorApp {
            log: UiLog::default(),
            selection: UiLanguageSelection::default(),
            run_state: RunState::Stopped,
            status_message: String::from_str("Idle. Click Start to begin."),
            rx: None,
            channel_capacity: 64,
            worker_budget: duration_from_secs(30),
        }
    }
}

impl VoiceTranslatorApp {
    /// Whether a worker's channel is attached.
    pub open spec fn spec_has_receiver(&self) -> bool {
        self.rx is Some
    }

    /// Attach the receiving half of a freshly started worker's channel. Only
    /// a stopped app can start a worker.
    pub fn attach_worker(&mut self, rx: Receiver<PipelineEvent>)
        requires
            old(self).run_state == RunState::Stopped,
        ensures
            final(self).rx == Some(rx),
            final(self).run_state == RunState::Running,
            final(self).status_message@ == "Running…"@,
            final(self).log@ == old(self).log@,
            final(self).selection == old(self).selection,
            final(self).channel_capacity == old(self).channel_capacity,
            final(self).worker_budget == old(self).worker_budget,
    {
        self.rx = Some(rx);
        self.run_state = RunState::Running;
        self.status_message = String::from_str("Running…");
    }

    /// Stop the worker: a running app drops its receiver (the worker exits at
    /// its next send) and is marked stopping; otherwise nothing changes.
    pub fn stop(&mut self)
        ensures
            old(self).run_state == RunState::Running ==> {
                &&& final(self).run_state == RunState::Stopping
                &&& final(self).status_message@ == "Stopping…"@
                &&& !final(self).spec_has_receiver()
            },
            old(self).run_state != RunState::Running ==> {
                &&& final(self).run_state == old(self).run_state
                &&& final(self).status_message@ == old(self).status_message@
                &&& final(self).rx == old(self).rx
            },
            final(self).log@ == old(self).log@,
            final(self).selection == old(self).selection,
            final(self).channel_capacity == old(self).channel_capacity,
            final(self).worker_budget == old(self).worker_budget,
    {
        if self.run_state == RunState::Running {
            self.run_state = RunState::Stopping;
            self.status_message = String::from_str("Stopping…");
            self.rx = None;
        }
    }

    /// Handle one poll of the channel: an event becomes a log row and the
    /// drain goes on; an empty channel ends the drain; a disconnected one
    /// (the worker has gone) marks the app stopped and idle, drops the
    /// receiver and ends the drain. Returns whether the drain goes on.
    pub fn apply_polled(&mut self, polled: Polled) -> (more: bool)
        ensures
            final(self).drain_state() == apply_poll(old(self).drain_state(), polled@),
            more == (polled@ is Event),
            final(self).rx is Some ==> final(self).rx == old(self).rx,
            final(self).selection == old(self).selection,
            final(self).channel_capacity == old(self).channel_capacity,
            final(self).worker_budget == old(self).worker_budget,
    {
        match polled {
            Polled::Event(event) => {
                self.log.push(UiLogEntry::from_event(&event));
                true
            },
            Polled::Empty => false,
            Polled::Disconnected => {
                self.run_state = RunState::Stopped;
                self.status_message = String::from_str("Idle.");
                self.rx = None;
                false
            },
        }
    }

    /// Drain the pending events from the channel into the log; returns how
    /// many were drained. The channel is polled until it is empty or
    /// disconnected (or `usize::MAX` events were taken); each outcome is
    /// handled as [`Self::apply_polled`] says, so when the worker has gone the
    /// app ends stopped and idle. Without a receiver nothing is polled: an
    /// app that was stopping (its receiver dropped, so its worker exits at
    /// its next send) is marked stopped and idle, and any other stays as it
    /// is.
    pub fn drain_events(&mut self) -> (n: usize)
        ensures
            !old(self).spec_has_receiver() ==> {
                &&& n == 0
                &&& final(self).drain_state() == settle_detached(old(self).drain_state())
            },
            old(self).spec_has_receiver() ==> exists|polls: Seq<PolledView>|
                #[trigger] drained_by(polls, n) && final(self).drain_state() == apply_polls(
                    old(self).drain_state(),
                    polls,
                ),
            final(self).rx is Some ==> final(self).rx == old(self).rx,
            final(self).selection == old(self).selection,
            final(self).channel_capacity == old(self).channel_capacity,
            final(self).worker_budget == old(self).worker_budget,
    {
        if self.rx.is_none() {
            if self.run_state == RunState::Stopping {
                self.run_state = RunState::Stopped;
                self.status_message = String::from_str("Idle.");
            }
            return 0;
        }
        let ghost start = self.drain_state();
        let ghost mut polls: Seq<PolledView> = seq![];
        let mut drained: usize = 0;
        let mut done = false;
        while !done && drained < usize::MAX
            invariant
                start == old(self).drain_state(),
                polls.len() == drained + (if done { 1int } else { 0int }),
                forall|i: int| 0 <= i < drained ==> #[trigger] polls[i] is Event,
                done ==> !(polls[drained as int] is Event),
                self.drain_state() == apply_polls(start, polls),
                !done ==> self.rx is Some,
                self.rx is Some ==> self.rx == old(self).rx,
                self.selection == old(self).selection,
                self.channel_capacity == old(self).channel_capacity,
                self.worker_budget == old(self).worker_budget,
            decreases usize::MAX - drained, if done { 0int } else { 1int },
        {
            let polled = match &self.rx {
                Some(rx) => poll_receiver(rx),
                None => Polled::Disconnected,
            };
            let ghost p = polled@;
            let more = self.apply_polled(polled);
            proof {
                assert(polls.push(p).drop_last() =~= polls);
                polls = polls.push(p);
            }
            if more {
                drained = drained + 1;
            } else {
                done = true;
            }
        }
        assert(drained_by(polls, drained));
        drained
    }
}

/// The part of the app's state a drain reads and changes: the log's view,
/// the run state, the status line, and whether a receiver is attached.
pub struct DrainState {
    pub log: LogView,
    pub run_state: RunState,
    pub status: Seq<char>,
    pub attached: bool,
}

impl VoiceTranslatorApp {
    pub open spec fn drain_state(&self) -> DrainState {
        DrainState {
            log: self.log@,
            run_state: self.run_state,
            status: self.status_message@,
            attached: self.rx is Some,
        }
    }
}

/// The state after handling one poll's outcome.
pub open spec fn apply_poll(s: DrainState, p: PolledView) -> DrainState {
    match p {
        PolledView::Event(e) => DrainState { log: log_push(s.log, entry_of(e)), ..s },
        PolledView::Empty => s,
        PolledView::Disconnected => DrainState {
            run_state: RunState::Stopped,
            status: "Idle."@,
            attached: false,
            ..s
        },
    }
}

/// The state after handling the outcomes of successive polls, in order.
pub open spec fn apply_polls(s: DrainState, ps: Seq<PolledView>) -> DrainState
    decreases ps.len(),
{
    if ps.len() == 0 {
        s
    } else {
        apply_poll(apply_polls(s, ps.drop_last()), ps.last())
    }
}

/// Whether `polls` is what one drain of `n` events polled: `n` events, then
/// an empty or disconnected channel, unless `usize::MAX` events ended it.
pub open spec fn drained_by(polls: Seq<PolledView>, n: usize) -> bool {
    &&& forall|i: int| 0 <= i < n ==> #[trigger] polls[i] is Event
    &&& {
        ||| polls.len() == n + 1 && !(polls[n as int] is Event)
        ||| polls.len() == n && n == usize::MAX
    }
}

/// A drain without a receiver: a stopping app becomes stopped and idle.
pub open spec fn settle_detached(s: DrainState) -> DrainState {
    if s.run_state == RunState::Stopping {
        DrainState { run_state: RunState::Stopped, status: "Idle."@, ..s }
    } else {
        s
    }
}

/// The outcomes of polls that each gave an event.
pub open spec fn event_polls(evs: Seq<EventView>) -> Seq<PolledView> {
    evs.map_values(|e: EventView| PolledView::Event(e))
}

/// Polls that each gave an event only append the events' rows to the log.
pub proof fn lemma_event_polls(s: DrainState, evs: Seq<EventView>)
    ensures
        apply_polls(s, event_polls(evs)) == (DrainState { log: log_after_events(s.log, evs), ..s }),
    decreases evs.len(),
{
    if evs.len() == 0 {
        assert(event_polls(evs) =~= seq![]);
        assert(evs.map_values(|e: EventView| entry_of(e)) =~= seq![]);
    } else {
        lemma_event_polls(s, evs.drop_last());
        assert(event_polls(evs).drop_last() =~= event_polls(evs.drop_last()));
        assert(evs.map_values(|e: EventView| entry_of(e)).drop_last() =~= evs.drop_last().map_values(
            |e: EventView| entry_of(e),
        ));
    }
}

/// A drain that ends on a disconnected channel (the worker has gone) leaves
/// the app stopped and idle, without a receiver, with the rows of the
/// events it took appended to the log in order.
pub proof fn lemma_drain_to_disconnect(s: DrainState, evs: Seq<EventView>)
    ensures
        ({
            let polls = event_polls(evs).push(PolledView::Disconnected);
            let r = apply_polls(s, polls);
            &&& r.run_state == RunState::Stopped
            &&& r.status == "Idle."@
            &&& !r.attached
            &&& r.log == log_after_events(s.log, evs)
        }),
{
    lemma_event_polls(s, evs);
    assert(event_polls(evs).push(PolledView::Disconnected).drop_last() =~= event_polls(evs));
}

} // verus!
