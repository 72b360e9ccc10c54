//! Translation requests, results and errors, the shared request checks, and
//! the offline stub backend.
//!
//! Pipeline role:
//!   audio chunk -> VAD segment -> transcription -> translation
//!
//! The stub backend returns a deterministic answer: a small table of common
//! phrases, and a labelled echo for everything else, so the end-to-end
//! pipeline can run without network access.

use vstd::prelude::*;
use crate::language::{code, all_codes, all_languages};
pub use crate::language::{Language, LanguageCode, SUPPORTED_LANGUAGES, supported_codes};
pub use crate::cloud::CloudTranslator;
use crate::text::{trim, lower, join, decimal, trim_str, lower_eq, is_blank, str_eq, join_strs, decimal_string};

verus! {

/// A translation request: one text segment and its language pair.
#[derive(Debug, Clone)]
pub struct TranslationRequest {
    pub text: String,
    pub source: LanguageCode,
    pub target: LanguageCode,
}

/// Mathematical form of a [`TranslationRequest`].
pub struct RequestView {
    pub text: Seq<char>,
    pub source: Language,
    pub target: Language,
}

impl View for TranslationRequest {
    type V = RequestView;

    open spec fn view(&self) -> RequestView {
        RequestView { text: self.text@, source: self.source, target: self.target }
    }
}

impl TranslationRequest {
    pub fn new(text: &str, source: LanguageCode, target: LanguageCode) -> (r: Self)
        ensures
            r@ == (RequestView { text: text@, source, target }),
    {
        TranslationRequest { text: String::from_str(text), source, target }
    }
}

/// A translation result.
#[derive(Debug, Clone, PartialEq)]
pub struct TranslationResult {
    pub original: String,
    pub translated: String,
    pub source: LanguageCode,
    pub target: LanguageCode,
    /// Backend that produced this result, e.g. `"cloud"`, `"local-stub"`.
    pub backend: String,
}

/// Mathematical form of a [`TranslationResult`].
pub struct ResultView {
    pub original: Seq<char>,
    pub translated: Seq<char>,
    pub source: Language,
    pub target: Language,
    pub backend: Seq<char>,
}

impl View for TranslationResult {
    type V = ResultView;

    open spec fn view(&self) -> ResultView {
        ResultView {
            original: self.original@,
            translated: self.translated@,
            source: self.source,
            target: self.target,
            backend: self.backend@,
        }
    }
}

/// Why a translation failed.
#[derive(Debug, Clone, PartialEq)]
pub enum TranslationError {
    UnsupportedLanguage { requested: String, supported: Vec<&'static str> },
    EmptyText,
    SourceEqualsTarget { language: LanguageCode },
    BackendUnavailable(String),
    Http { status: u16, body: String },
    Timeout,
    Serde(String),
    Other(String),
}

/// Mathematical form of a [`TranslationError`].
pub enum ErrorView {
    UnsupportedLanguage { requested: Seq<char>, supported: Seq<Seq<char>> },
    EmptyText,
    SourceEqualsTarget { language: Language },
    BackendUnavailable(Seq<char>),
    Http { status: u16, body: Seq<char> },
    Timeout,
    Serde(Seq<char>),
    Other(Seq<char>),
}

/// The views of a list of codes.
pub open spec fn code_views(v: Seq<&'static str>) -> Seq<Seq<char>> {
    v.map_values(|s: &str| s@)
}

impl View for TranslationError {
    type V = ErrorView;

    open spec fn view(&self) -> ErrorView {
        match self {
            TranslationError::UnsupportedLanguage { requested, supported } => {
                ErrorView::UnsupportedLanguage {
                    requested: requested@,
                    supported: code_views(supported@),
                }
            },
            TranslationError::EmptyText => ErrorView::EmptyText,
            TranslationError::SourceEqualsTarget { language } => ErrorView::SourceEqualsTarget {
                language: *language,
            },
            TranslationError::BackendUnavailable(m) => ErrorView::BackendUnavailable(m@),
            TranslationError::Http { status, body } => ErrorView::Http {
                status: *status,
                body: body@,
            },
            TranslationError::Timeout => ErrorView::Timeout,
            TranslationError::Serde(m) => ErrorView::Serde(m@),
            TranslationError::Other(m) => ErrorView::Other(m@),
        }
    }
}

/// The human-readable message of an error (what its `Display` shows).
pub open spec fn error_message(e: ErrorView) -> Seq<char> {
    match e {
        ErrorView::UnsupportedLanguage { requested, supported } => "unsupported language '"@
            + requested + "' (supported: "@ + join(supported, ", "@) + ")"@,
        ErrorView::EmptyText => "translation text is empty"@,
        ErrorView::SourceEqualsTarget { language } => "source and target languages are both "@
            + code(language) + "; nothing to translate"@,
        ErrorView::BackendUnavailable(m) => "translation backend unavailable: "@ + m,
        ErrorView::Http { status, body } => "translation HTTP error "@ + decimal(status as nat)
            + ": "@ + body,
        ErrorView::Timeout => "translation request timed out"@,
        ErrorView::Serde(m) => "translation serde error: "@ + m,
        ErrorView::Other(m) => m,
    }
}

impl TranslationError {
    /// The human-readable message of this error.
    pub fn message(&self) -> (r: String)
        ensures
            r@ == error_message(self@),
    {
        match self {
            TranslationError::UnsupportedLanguage { requested, supported } => {
                let list = join_strs(supported, ", ");
                String::from_str("unsupported language '").concat(requested.as_str()).concat(
                    "' (supported: ",
                ).concat(list.as_str()).concat(")")
            },
            TranslationError::EmptyText => String::from_str("translation text is empty"),
            TranslationError::SourceEqualsTarget { language } => String::from_str(
                "source and target languages are both ",
            ).concat(language.as_str()).concat("; nothing to translate"),
            TranslationError::BackendUnavailable(m) => String::from_str(
                "translation backend unavailable: ",
            ).concat(m.as_str()),
            TranslationError::Http { status, body } => {
                let s = decimal_string(*status as u64);
                String::from_str("translation HTTP error ").concat(s.as_str()).concat(
                    ": ",
                ).concat(body.as_str())
            },
            TranslationError::Timeout => String::from_str("translation request timed out"),
            TranslationError::Serde(m) => String::from_str("translation serde error: ").concat(
                m.as_str(),
            ),
            TranslationError::Other(m) => m.clone(),
        }
    }
}

/// Whether every supported language appears in the catalog.
proof fn lemma_every_language_listed(l: Language)
    ensures
        all_codes().contains(code(l)),
{
    let i: int = match l {
        Language::Zh => 0,
        Language::En => 1,
        Language::Ja => 2,
        Language::Ko => 3,
        Language::Fr => 4,
        Language::De => 5,
        Language::Es => 6,
        Language::Pt => 7,
        Language::Ru => 8,
        Language::It => 9,
        Language::Ar => 10,
        Language::Th => 11,
        Language::Tr => 12,
    };
    assert(all_codes()[i] == code(l));
}

/// Whether `l` is in the global catalog (`SUPPORTED_LANGUAGES`).
fn language_is_listed(l: Language) -> (b: bool)
    ensures
        b == all_codes().contains(code(l)),
{
    let mut i: usize = 0;
    assert(SUPPORTED_LANGUAGES@ == all_languages());
    while i < 13
        invariant
            i <= 13,
            SUPPORTED_LANGUAGES@ == all_languages(),
            forall|k: int| 0 <= k < i ==> all_languages()[k] != l,
        decreases 13 - i,
    {
        if SUPPORTED_LANGUAGES[i] == l {
            assert(all_codes()[i as int] == code(l));
            return true;
        }
        i = i + 1;
    }
    proof {
        lemma_every_language_listed(l);
        let j = choose|j: int| 0 <= j < all_codes().len() && all_codes()[j] == code(l);
        crate::language::lemma_code_injective(all_languages()[j], l);
    }
    false
}

/// Whether the allow-list holds `c`.
fn list_contains(list: &Vec<&'static str>, c: &str) -> (b: bool)
    ensures
        b == code_views(list@).contains(c@),
{
    let mut i: usize = 0;
    while i < list.len()
        invariant
            i <= list.len(),
            forall|k: int| 0 <= k < i ==> list@[k]@ != c@,
        decreases list.len() - i,
    {
        if str_eq(list[i], c) {
            assert(code_views(list@)[i as int] == c@);
            return true;
        }
        i = i + 1;
    }
    proof {
        if code_views(list@).contains(c@) {
            let j = choose|j: int| 0 <= j < code_views(list@).len() && code_views(list@)[j] == c@;
            assert(list@[j]@ == c@);
        }
    }
    false
}

/// Whether a language is refused by the allow-list in force (the given
/// list, or else the global catalog).
pub open spec fn refused(allow: Option<Seq<Seq<char>>>, l: Language) -> bool {
    match allow {
        Some(a) => !a.contains(code(l)),
        None => false,
    }
}

/// The list reported as supported when a language is refused.
pub open spec fn reported_list(allow: Option<Seq<Seq<char>>>) -> Seq<Seq<char>> {
    match allow {
        Some(a) => a,
        None => all_codes(),
    }
}

/// The error a request is refused with, checked in order: blank text, equal
/// languages, source not allowed, target not allowed. `None` when the
/// request is accepted.
pub open spec fn request_error(r: RequestView, allow: Option<Seq<Seq<char>>>) -> Option<ErrorView> {
    if trim(r.text).len() == 0 {
        Some(ErrorView::EmptyText)
    } else if r.source == r.target {
        Some(ErrorView::SourceEqualsTarget { language: r.source })
    } else if refused(allow, r.source) {
        Some(
            ErrorView::UnsupportedLanguage {
                requested: code(r.source),
                supported: reported_list(allow),
            },
        )
    } else if refused(allow, r.target) {
        Some(
            ErrorView::UnsupportedLanguage {
                requested: code(r.target),
                supported: reported_list(allow),
            },
        )
    } else {
        None
    }
}

/// The views of an optional allow-list.
pub open spec fn allow_views(allow: Option<Vec<&'static str>>) -> Option<Seq<Seq<char>>> {
    match allow {
        Some(v) => Some(code_views(v@)),
        None => None,
    }
}

fn check_language(l: Language, extra_allow: &Option<Vec<&'static str>>) -> (r: Result<
    (),
    TranslationError,
>)
    ensures
        r.is_ok() == !refused(allow_views(*extra_allow), l),
        r matches Err(e) ==> e@ == (ErrorView::UnsupportedLanguage {
            requested: code(l),
            supported: reported_list(allow_views(*extra_allow)),
        }),
{
    match extra_allow {
        Some(allow) => {
            if !list_contains(allow, l.as_str()) {
                let mut supported: Vec<&'static str> = Vec::new();
                let mut i: usize = 0;
                while i < allow.len()
                    invariant
                        i <= allow.len(),
                        supported@ == allow@.take(i as int),
                    decreases allow.len() - i,
                {
                    supported.push(allow[i]);
                    assert(allow@.take(i + 1) =~= allow@.take(i as int).push(allow@[i as int]));
                    i = i + 1;
                }
                assert(allow@.take(allow.len() as int) =~= allow@);
                return Err(
                    TranslationError::UnsupportedLanguage {
                        requested: String::from_str(l.as_str()),
                        supported,
                    },
                );
            }
        },
        None => {
            proof {
                lemma_every_language_listed(l);
            }
            if !language_is_listed(l) {
                return Err(
                    TranslationError::UnsupportedLanguage {
                        requested: String::from_str(l.as_str()),
                        supported: supported_codes(),
                    },
                );
            }
        },
    }
    Ok(())
}

/// The checks every backend applies before translating: the text must not
/// be blank, the languages must differ, and both must be allowed (by the
/// given list, or else by the global catalog).
pub fn validate_request(
    request: &TranslationRequest,
    extra_allow: &Option<Vec<&'static str>>,
) -> (r: Result<(), TranslationError>)
    ensures
        match request_error(request@, allow_views(*extra_allow)) {
            Some(e) => r matches Err(err) && err@ == e,
            None => r is Ok,
        },
{
    if is_blank(request.text.as_str()) {
        return Err(TranslationError::EmptyText);
    }
    if request.source == request.target {
        return Err(TranslationError::SourceEqualsTarget { language: request.source });
    }
    match check_language(request.source, extra_allow) {
        Err(e) => {
            return Err(e);
        },
        Ok(()) => {},
    }
    match check_language(request.target, extra_allow) {
        Err(e) => {
            return Err(e);
        },
        Ok(()) => {},
    }
    Ok(())
}

/// What [`validate_language`] gives: the parsed language, or the rejection
/// that lists every supported code.
pub open spec fn validate_language_spec(s: Seq<char>) -> Result<Language, ErrorView> {
    match crate::language::parse_spec(s) {
        Some(l) => Ok(l),
        None => Err(ErrorView::UnsupportedLanguage { requested: s, supported: all_codes() }),
    }
}

/// Validate that `code` is a supported language (case-insensitive,
/// surrounding whitespace ignored).
pub fn validate_language(code: &str) -> (r: Result<LanguageCode, TranslationError>)
    ensures
        match validate_language_spec(code@) {
            Ok(l) => r == Ok::<Language, TranslationError>(l),
            Err(e) => r matches Err(err) && err@ == e,
        },
{
    match Language::parse(code) {
        Some(l) => Ok(l),
        None => Err(
            TranslationError::UnsupportedLanguage {
                requested: String::from_str(code),
                supported: supported_codes(),
            },
        ),
    }
}

// --- Stub backend (offline, deterministic) --------------------------------

/// The stub's phrase table: the fixed translation of a trimmed, lower-cased
/// phrase for a language pair, if it has one.
pub open spec fn phrase(source: Language, target: Language, low: Seq<char>) -> Option<Seq<char>> {
    if source == Language::Zh && target == Language::En {
        if low == "你好"@ {
            Some("hello"@)
        } else if low == "再见"@ {
            Some("goodbye"@)
        } else if low == "谢谢"@ {
            Some("thank you"@)
        } else {
            None
        }
    } else if source == Language::En && target == Language::Zh {
        if low == "hello"@ {
            Some("你好"@)
        } else if low == "goodbye"@ {
            Some("再见"@)
        } else if low == "thank you"@ {
            Some("谢谢"@)
        } else {
            None
        }
    } else if source == Language::En && target == Language::Ja {
        if low == "hello"@ {
            Some("こんにちは"@)
        } else if low == "thank you"@ {
            Some("ありがとう"@)
        } else {
            None
        }
    } else {
        None
    }
}

/// The stub's translation: the table entry, or else the text labelled with
/// the language pair, `"[stub en→ja] text"`.
pub open spec fn mock_spec(text: Seq<char>, source: Language, target: Language) -> Seq<char> {
    match phrase(source, target, lower(trim(text))) {
        Some(p) => p,
        None => "[stub "@ + code(source) + "→"@ + code(target) + "] "@ + text,
    }
}

/// Deterministic stand-in translation used by [`StubTranslator`].
pub fn mock_translate(text: &str, source: LanguageCode, target: LanguageCode) -> (r: String)
    ensures
        r@ == mock_spec(text@, source, target),
{
    let t = trim_str(text);
    let found: Option<&str> = match (source, target) {
        (Language::Zh, Language::En) => {
            if lower_eq(t, "你好") {
                Some("hello")
            } else if lower_eq(t, "再见") {
                Some("goodbye")
            } else if lower_eq(t, "谢谢") {
                Some("thank you")
            } else {
                None
            }
        },
        (Language::En, Language::Zh) => {
            if lower_eq(t, "hello") {
                Some("你好")
            } else if lower_eq(t, "goodbye") {
                Some("再见")
            } else if lower_eq(t, "thank you") {
                Some("谢谢")
            } else {
                None
            }
        },
        (Language::En, Language::Ja) => {
            if lower_eq(t, "hello") {
                Some("こんにちは")
            } else if lower_eq(t, "thank you") {
                Some("ありがとう")
            } else {
                None
            }
        },
        _ => None,
    };
    match found {
        Some(p) => String::from_str(p),
        None => String::from_str("[stub ").concat(source.as_str()).concat("→").concat(
            target.as_str(),
        ).concat("] ").concat(text),
    }
}

/// The stub's phrase table reads back: translating a Chinese table phrase
/// into English and the answer back into Chinese gives the phrase again.
pub proof fn lemma_stub_phrases_round_trip(p: Seq<char>)
    requires
        p == "你好"@ || p == "再见"@ || p == "谢谢"@,
    ensures
        mock_spec(mock_spec(p, Language::Zh, Language::En), Language::En, Language::Zh) == p,
{
    reveal_strlit("你好");
    reveal_strlit("再见");
    reveal_strlit("谢谢");
    reveal_strlit("hello");
    reveal_strlit("goodbye");
    reveal_strlit("thank you");
    crate::text::lemma_trim_of_unpadded(p);
    crate::text::lemma_lower_of_lowercase(p);
    let q = mock_spec(p, Language::Zh, Language::En);
    crate::text::lemma_trim_of_unpadded(q);
    crate::text::lemma_lower_of_lowercase(q);
}

/// Each entry of the stub's phrase table, for any text that reads as the
/// phrase once trimmed and ASCII lower-cased: Chinese 你好 / 再见 / 谢谢 are
/// English "hello" / "goodbye" / "thank you" and back, and English "hello" /
/// "thank you" are Japanese こんにちは / ありがとう. A text that is no entry
/// for its language pair comes back labelled with the pair.
pub proof fn lemma_stub_phrase_table(text: Seq<char>)
    ensures
        lower(trim(text)) == "你好"@ ==> mock_spec(text, Language::Zh, Language::En) == "hello"@,
        lower(trim(text)) == "再见"@ ==> mock_spec(text, Language::Zh, Language::En) == "goodbye"@,
        lower(trim(text)) == "谢谢"@ ==> mock_spec(text, Language::Zh, Language::En) == "thank you"@,
        lower(trim(text)) == "hello"@ ==> mock_spec(text, Language::En, Language::Zh) == "你好"@,
        lower(trim(text)) == "goodbye"@ ==> mock_spec(text, Language::En, Language::Zh) == "再见"@,
        lower(trim(text)) == "thank you"@ ==> mock_spec(text, Language::En, Language::Zh) == "谢谢"@,
        lower(trim(text)) == "hello"@ ==> mock_spec(text, Language::En, Language::Ja) == "こんにちは"@,
        lower(trim(text)) == "thank you"@ ==> mock_spec(text, Language::En, Language::Ja)
            == "ありがとう"@,
        lower(trim(text)) == "goodbye"@ ==> mock_spec(text, Language::En, Language::Ja)
            == "[stub en→ja] "@ + text,
{
    reveal_strlit("你好");
    reveal_strlit("再见");
    reveal_strlit("谢谢");
    reveal_strlit("hello");
    reveal_strlit("goodbye");
    reveal_strlit("thank you");
    reveal_strlit("en");
    reveal_strlit("ja");
    assert("再见"@[0] != "你好"@[0]);
    assert("谢谢"@[0] != "你好"@[0]);
    assert("谢谢"@[0] != "再见"@[0]);
    assert("goodbye"@[0] != "hello"@[0]);
    assert("thank you"@[0] != "hello"@[0]);
    assert("thank you"@[0] != "goodbye"@[0]);
    if lower(trim(text)) == "goodbye"@ {
        reveal_strlit("[stub ");
        reveal_strlit("→");
        reveal_strlit("] ");
        reveal_strlit("[stub en→ja] ");
        assert("[stub "@ + "en"@ + "→"@ + "ja"@ + "] "@ + text =~= "[stub en→ja] "@ + text);
    }
}

/// Only the language pairs Chinese→English, English→Chinese and
/// English→Japanese have phrase entries; for every other pair any text comes
/// back as itself, labelled `[stub <source>→<target>] `.
pub proof fn lemma_stub_labels_other_pairs(text: Seq<char>, source: Language, target: Language)
    requires
        !(source == Language::Zh && target == Language::En),
        !(source == Language::En && target == Language::Zh),
        !(source == Language::En && target == Language::Ja),
    ensures
        mock_spec(text, source, target) == "[stub "@ + code(source) + "→"@ + code(target) + "] "@
            + text,
        mock_spec(text, source, target).subrange(
            mock_spec(text, source, target).len() - text.len(),
            mock_spec(text, source, target).len() as int,
        ) == text,
{
    let m = mock_spec(text, source, target);
    let prefix = "[stub "@ + code(source) + "→"@ + code(target) + "] "@;
    assert(m == prefix + text);
    assert(m.subrange(m.len() - text.len(), m.len() as int) =~= text);
}

/// First occurrences of each code, in order (what a set of codes keeps).
pub open spec fn dedup(s: Seq<Seq<char>>) -> Seq<Seq<char>>
    decreases s.len(),
{
    if s.len() == 0 {
        seq![]
    } else {
        let d = dedup(s.drop_last());
        if d.contains(s.last()) {
            d
        } else {
            d.push(s.last())
        }
    }
}

/// Offline stub backend: answers from the phrase table, or echoes the text
/// labelled with the language pair.
pub struct StubTranslator {
    name: &'static str,
    /// Optional restriction of the languages this stub accepts. When `None`,
    /// the global catalog applies.
    allowed: Option<Vec<&'static str>>,
}

impl StubTranslator {
    /// The backend name reported in results.
    pub closed spec fn spec_name(&self) -> Seq<char> {
        self.name@
    }

    /// The allow-list in force, if any (each code once, in first-given order).
    pub closed spec fn spec_allowed(&self) -> Option<Seq<Seq<char>>> {
        allow_views(self.allowed)
    }

    pub fn new() -> (r: Self)
        ensures
            r.spec_name() == "local-stub"@,
            r.spec_allowed() is None,
    {
        StubTranslator { name: "local-stub", allowed: None }
    }

    pub fn with_name(name: &'static str) -> (r: Self)
        ensures
            r.spec_name() == name@,
            r.spec_allowed() is None,
    {
        StubTranslator { name, allowed: None }
    }

    /// Restrict this stub to a subset of languages.
    pub fn with_allowed(self, codes: Vec<&'static str>) -> (r: Self)
        ensures
            r.spec_name() == self.spec_name(),
            r.spec_allowed() == Some(dedup(code_views(codes@))),
    {
        let mut kept: Vec<&'static str> = Vec::new();
        let mut i: usize = 0;
        while i < codes.len()
            invariant
                i <= codes.len(),
                code_views(kept@) == dedup(code_views(codes@).take(i as int)),
            decreases codes.len() - i,
        {
            let c = codes[i];
            let ghost prefix = code_views(codes@).take(i as int);
            assert(code_views(codes@).take(i + 1).drop_last() =~= prefix);
            assert(code_views(codes@).take(i + 1).last() == c@);
            if !list_contains(&kept, c) {
                kept.push(c);
                assert(code_views(kept@) =~= dedup(prefix).push(c@));
            }
            i = i + 1;
        }
        assert(code_views(codes@).take(codes.len() as int) =~= code_views(codes@));
        StubTranslator { name: self.name, allowed: Some(kept) }
    }

    /// Backend identifier for logs / metrics.
    pub fn backend_name(&self) -> (r: &'static str)
        ensures
            r@ == self.spec_name(),
    {
        self.name
    }

    /// Readiness probe: the stub is always ready.
    pub fn health_check(&self) -> (r: Result<(), TranslationError>)
        ensures
            r is Ok,
    {
        Ok(())
    }

    /// Translate a single text segment.
    pub fn translate(&self, request: TranslationRequest) -> (r: Result<TranslationResult, TranslationError>)
        ensures
            match request_error(request@, self.spec_allowed()) {
                Some(e) => r matches Err(err) && err@ == e,
                None => r matches Ok(res) && res@ == (ResultView {
                    original: request@.text,
                    translated: mock_spec(request@.text, request@.source, request@.target),
                    source: request@.source,
                    target: request@.target,
                    backend: self.spec_name(),
                }),
            },
    {
        match validate_request(&request, &self.allowed) {
            Err(e) => {
                return Err(e);
            },
            Ok(()) => {},
        }
        let translated = mock_translate(request.text.as_str(), request.source, request.target);
        Ok(
            TranslationResult {
                original: request.text,
                translated,
                source: request.source,
                target: request.target,
                backend: String::from_str(self.name),
            },
        )
    }
}

impl Default for StubTranslator {
    fn default() -> (r: Self)
        ensures
            r.spec_name() == "local-stub"@,
            r.spec_allowed() is None,
    {
        Self::new()
    }
}

} // verus!
