use std::sync::mpsc;
use std::time::{Duration, Instant};
use voice_translator::language::Language;
use voice_translator::pipeline::{PipelineConfig, PipelineEvent, PipelineStage};
use voice_translator::translation::LanguageCode;
use voice_translator::ui::{
    EntryStage, MockBackend, Polled, RealtimeBackend, RunState, UiLanguageSelection, UiLog,
    UiLogEntry, VoiceTranslatorApp,
};

fn ev_translated(text: &str, translated: &str) -> PipelineEvent {
    PipelineEvent::Translated {
        at: Instant::now(),
        stt_ms: 1,
        mt_ms: 1,
        text: text.to_string(),
        translated: translated.to_string(),
    }
}

fn ev_error(msg: &str) -> PipelineEvent {
    PipelineEvent::Error {
        at: Instant::now(),
        stage: PipelineStage::MachineTranslation,
        message: msg.to_string(),
    }
}

#[test]
fn log_respects_capacity_bound() {
    let mut log = UiLog::with_capacity(3);
    for i in 0..10 {
        log.push(UiLogEntry {
            at: Instant::now(),
            stage: EntryStage::Transcript,
            text: format!("line {i}"),
            translated: String::new(),
        });
    }
    assert_eq!(log.len(), 3);
    let texts: Vec<&str> = log.iter().map(|e| e.text.as_str()).collect();
    assert_eq!(texts, vec!["line 7", "line 8", "line 9"]);
}

#[test]
fn log_clear_empties_entries() {
    let mut log = UiLog::default();
    log.push(UiLogEntry {
        at: Instant::now(),
        stage: EntryStage::Translated,
        text: "x".into(),
        translated: "y".into(),
    });
    assert_eq!(log.len(), 1);
    log.clear();
    assert!(log.is_empty());
}

#[test]
fn entry_from_translated_event_captures_both_sides() {
    let ev = ev_translated("Hello", "你好");
    let entry = UiLogEntry::from_event(&ev);
    assert_eq!(entry.stage, EntryStage::Translated);
    assert_eq!(entry.text, "Hello");
    assert_eq!(entry.translated, "你好");
}

#[test]
fn entry_from_error_event_puts_message_in_text_field() {
    let ev = ev_error("network down");
    let entry = UiLogEntry::from_event(&ev);
    assert_eq!(entry.stage, EntryStage::Error);
    assert!(entry.text.contains("network down"));
}

#[test]
fn entry_from_no_speech_event_has_empty_text() {
    let ev = PipelineEvent::NoSpeech { at: Instant::now() };
    let entry = UiLogEntry::from_event(&ev);
    assert_eq!(entry.stage, EntryStage::NoSpeech);
    assert!(entry.text.is_empty());
    assert!(entry.translated.is_empty());
}

#[test]
fn mock_backend_pushes_synthetic_events_to_channel() {
    // The replay decisions: the first event sent is the list's first, and with
    // `stop_after: Some(1)` the replay stops right after it.
    let mock = MockBackend {
        events: vec![ev_translated("a", "α")],
        interval: std::time::Duration::from_millis(5),
        stop_after: Some(1),
    };
    match mock.event_at(0) {
        PipelineEvent::Translated { text, translated, .. } => {
            assert_eq!(text, "a");
            assert_eq!(translated, "α");
        }
        other => panic!("expected Translated, got {:?}", other),
    }
    assert_eq!(mock.after_send(0, true, false), None);
}

#[test]
fn start_then_drain_collects_events_into_log() {
    let mut app = VoiceTranslatorApp::default();
    let (tx, rx) = mpsc::channel::<PipelineEvent>();
    app.attach_worker(rx);
    assert_eq!(app.run_state, RunState::Running);
    for (a, b) in [("one", "一"), ("two", "二"), ("three", "三")] {
        tx.send(ev_translated(a, b)).unwrap();
    }
    let drained = app.drain_events();
    assert!(drained >= 1, "expected at least one event, got {drained}");
    assert_eq!(app.run_state, RunState::Running);
    drop(tx);
    app.drain_events();
    assert_eq!(app.run_state, RunState::Stopped);
    assert!(!app.log.is_empty());
    assert_eq!(app.status_message, "Idle.");
    assert!(app.rx.is_none());
}

#[test]
fn stop_drops_receiver_and_marks_stopping() {
    let mut app = VoiceTranslatorApp::default();
    let (_tx, rx) = mpsc::channel::<PipelineEvent>();
    app.attach_worker(rx);
    assert_eq!(app.run_state, RunState::Running);
    app.stop();
    assert_eq!(app.run_state, RunState::Stopping);
    assert!(app.rx.is_none());
}

#[test]
fn selection_defaults_to_en_to_zh() {
    let s = UiLanguageSelection::default();
    assert_eq!(s.source, LanguageCode::En);
    assert_eq!(s.target, LanguageCode::Zh);
}

#[test]
fn default_status_message_is_idle() {
    let app = VoiceTranslatorApp::default();
    assert!(app.status_message.contains("Idle"));
}

// --- further cases ---------------------------------------------------------

#[test]
fn log_keeps_newest_entries_in_order() {
    let mut log = UiLog::with_capacity(2);
    let texts = ["a", "b", "c", "d", "e"];
    for t in texts {
        log.push(UiLogEntry {
            at: Instant::now(),
            stage: EntryStage::Transcript,
            text: t.to_string(),
            translated: String::new(),
        });
        assert!(log.len() <= 2);
    }
    let kept: Vec<String> = log.iter().map(|e| e.text.clone()).collect();
    assert_eq!(kept, vec!["d".to_string(), "e".to_string()]);
}

#[test]
fn zero_capacity_log_stays_empty() {
    let mut log = UiLog::with_capacity(0);
    log.push(UiLogEntry::from_event(&ev_error("x")));
    assert!(log.is_empty());
}

#[test]
fn default_log_capacity_is_two_hundred() {
    assert_eq!(UiLog::DEFAULT_CAPACITY, 200);
    let mut log = UiLog::default();
    for i in 0..250 {
        log.push(UiLogEntry::from_event(&ev_translated(&i.to_string(), "")));
    }
    assert_eq!(log.len(), 200);
    assert_eq!(log.iter().next().unwrap().text, "50");
}

#[test]
fn entry_from_error_event_names_the_stage() {
    let ev = PipelineEvent::Error {
        at: Instant::now(),
        stage: PipelineStage::SpeechToText,
        message: "whisper exploded".into(),
    };
    assert_eq!(UiLogEntry::from_event(&ev).text, "SpeechToText: whisper exploded");
    assert_eq!(UiLogEntry::from_event(&ev_error("boom")).text, "MachineTranslation: boom");
}

#[test]
fn entry_from_transcript_event_has_no_translation() {
    let ev = PipelineEvent::TranscriptOnly { at: Instant::now(), text: "Hi".into() };
    let entry = UiLogEntry::from_event(&ev);
    assert_eq!(entry.stage, EntryStage::Transcript);
    assert_eq!(entry.text, "Hi");
    assert!(entry.translated.is_empty());
}

#[test]
fn stop_when_not_running_changes_nothing() {
    let mut app = VoiceTranslatorApp::default();
    app.stop();
    assert_eq!(app.run_state, RunState::Stopped);
    assert_eq!(app.status_message, "Idle. Click Start to begin.");
    assert_eq!(app.drain_events(), 0);
    assert_eq!(app.run_state, RunState::Stopped);
}

#[test]
fn run_state_is_running_only_when_running() {
    assert!(RunState::Running.is_running());
    assert!(!RunState::Stopped.is_running());
    assert!(!RunState::Stopping.is_running());
}

#[test]
fn default_mock_backend_cycles_through_demo() {
    let mock = MockBackend::default();
    assert_eq!(mock.events.len(), 6);
    assert_eq!(mock.stop_after, None);
    match mock.event_at(7) {
        PipelineEvent::Translated { text, translated, stt_ms, mt_ms, .. } => {
            assert_eq!(text, "Hello");
            assert_eq!(translated, "你好");
            assert_eq!((stt_ms, mt_ms), (120, 80));
        }
        other => panic!("expected Translated, got {:?}", other),
    }
    assert!(matches!(mock.event_at(4), PipelineEvent::NoSpeech { .. }));
    assert_eq!(mock.after_send(3, true, false), Some(4));
    assert_eq!(mock.after_send(3, false, false), None);
    assert_eq!(mock.after_send(3, true, true), None);
}

#[test]
fn realtime_backend_defaults_and_error_events() {
    let rt = RealtimeBackend::default();
    assert_eq!(rt.chunk_samples, 16_000);
    assert_eq!(rt.config.source, Language::En);
    assert_eq!(rt.config.max_chunk_samples, PipelineConfig::default().max_chunk_samples);
    let at = Instant::now();
    match RealtimeBackend::outcome_event(at, Err("runtime failed".into())) {
        PipelineEvent::Error { stage, message, .. } => {
            assert_eq!(stage, PipelineStage::SpeechToText);
            assert_eq!(message, "runtime failed");
        }
        other => panic!("expected Error, got {:?}", other),
    }
    let ok = RealtimeBackend::outcome_event(at, Ok(PipelineEvent::NoSpeech { at }));
    assert_eq!(ok, PipelineEvent::NoSpeech { at });
}

#[test]
fn drain_after_stop_returns_to_stopped() {
    let mut app = VoiceTranslatorApp::default();
    let (tx, rx) = mpsc::channel::<PipelineEvent>();
    app.attach_worker(rx);
    tx.send(ev_translated("one", "一")).unwrap();
    app.stop();
    assert_eq!(app.run_state, RunState::Stopping);
    assert!(tx.send(ev_translated("two", "二")).is_err());
    assert_eq!(app.drain_events(), 0);
    assert_eq!(app.run_state, RunState::Stopped);
    assert_eq!(app.status_message, "Idle.");
    assert!(app.log.is_empty());
}

#[test]
fn drain_takes_every_pending_event_in_order() {
    let mut app = VoiceTranslatorApp::default();
    let (tx, rx) = mpsc::channel::<PipelineEvent>();
    app.attach_worker(rx);
    for (a, b) in [("one", "一"), ("two", "二"), ("three", "三")] {
        tx.send(ev_translated(a, b)).unwrap();
    }
    assert_eq!(app.drain_events(), 3);
    assert_eq!(app.run_state, RunState::Running);
    assert!(app.rx.is_some());
    let texts: Vec<String> = app.log.iter().map(|e| e.text.clone()).collect();
    assert_eq!(texts, vec!["one".to_string(), "two".to_string(), "three".to_string()]);
    tx.send(ev_error("late")).unwrap();
    drop(tx);
    assert_eq!(app.drain_events(), 1);
    assert_eq!(app.run_state, RunState::Stopped);
    assert_eq!(app.status_message, "Idle.");
    assert!(app.rx.is_none());
    assert_eq!(app.log.len(), 4);
}

#[test]
fn each_poll_outcome_is_applied() {
    let mut app = VoiceTranslatorApp::default();
    let (_tx, rx) = mpsc::channel::<PipelineEvent>();
    app.attach_worker(rx);
    assert!(app.apply_polled(Polled::Event(ev_translated("a", "α"))));
    assert_eq!(app.log.len(), 1);
    assert_eq!(app.run_state, RunState::Running);
    assert!(!app.apply_polled(Polled::Empty));
    assert_eq!(app.log.len(), 1);
    assert_eq!(app.status_message, "Running…");
    assert!(app.rx.is_some());
    assert!(!app.apply_polled(Polled::Disconnected));
    assert_eq!(app.run_state, RunState::Stopped);
    assert_eq!(app.status_message, "Idle.");
    assert!(app.rx.is_none());
    assert_eq!(app.log.len(), 1);
}

#[test]
fn default_durations_are_the_documented_ones() {
    assert_eq!(MockBackend::default().interval, Duration::from_millis(900));
    assert_eq!(RealtimeBackend::default().budget, Duration::from_secs(3600));
    assert_eq!(VoiceTranslatorApp::default().worker_budget, Duration::from_secs(30));
}

#[test]
fn log_rows_keep_their_time_stamps() {
    let mut log = UiLog::with_capacity(2);
    let first = Instant::now();
    let stamps: Vec<Instant> = (0..3).map(|i| first + Duration::from_millis(i)).collect();
    for (i, at) in stamps.iter().enumerate() {
        log.push(UiLogEntry {
            at: *at,
            stage: EntryStage::Transcript,
            text: i.to_string(),
            translated: String::new(),
        });
    }
    let kept: Vec<Instant> = log.iter().map(|e| e.at).collect();
    assert_eq!(kept, vec![stamps[1], stamps[2]]);
    let copy = log.clone();
    let copied: Vec<Instant> = copy.iter().map(|e| e.at).collect();
    assert_eq!(copied, kept);
}
