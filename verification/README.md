# voice_translator

Real-time speech translation: voice-activity detection, speech-to-text,
machine translation and a desktop frontend.

- `src/` is the verified library. Each function states its result in its
  contract; the laws of the library (round trips of language codes, the
  silence counter of the detector, the bounded log, the requests the
  pipeline hands to a translator) are proof functions next to the code
  they speak of.
  - `vad` — the per-frame detector state machine
  - `language`, `translation` — language codes, request checks, errors,
    the offline stub backend
  - `cloud` — the chat-completions backend: what is sent, what a reply means
  - `pipeline` — the decisions taken for each audio chunk
  - `ui` — the rolling log, run state and event sources of the frontend
  - `cli` — command-line parsing and help text
  - `text`, `clock`, `audio`, `transcription` — helpers and settings
- `app/` is the program around it: microphone capture, frame energy,
  the asynchronous translator interface and its HTTP exchanges, worker
  threads, and the eframe window.
- `tests/` exercise the library from outside.

The offline stub's allow-list of language codes is a `Vec` kept free of
repeats, in the order the codes were first given. vstd models the contents
of a `HashSet` only for integer and `bool` keys; with string codes as keys
nothing about `contains` could be proved, so the set is held as a list and
its uniqueness is part of the stub's contract.

Building and deployment notes:

- The microphone capture in `app/audio.rs` uses `cpal`. It is not listed in
  `Cargo.toml`: together with the window toolkit its sources were more than
  could be brought into this build, so `app/` does not type-check until
  `cpal` is added back.
- `reqwest` is used without its default features, so no TLS backend is
  compiled in: the cloud backend reaches `http://` servers (such as a local
  hy-RTMT server) but not `https://` providers. The library's claim that
  building its HTTP client cannot fail rests on this: with a TLS backend,
  building a client can fail while the backend starts.
