//! The closed set of supported language codes.
//!
//! Codes are ISO-639-1, lower case. Parsing is case-insensitive (ASCII) and
//! ignores surrounding whitespace; anything outside the allow-list is
//! rejected so misconfigured pipelines fail fast.

use vstd::prelude::*;
use crate::text::{lower, lower_eq, trim, trim_str};

verus! {

/// A supported language (ISO-639-1 code).
#[derive(Debug, Clone, Copy, PartialEq, Eq, Hash, Structural)]
pub enum Language {
    Zh,
    En,
    Ja,
    Ko,
    Fr,
    De,
    Es,
    Pt,
    Ru,
    It,
    Ar,
    Th,
    Tr,
}

/// Historical name of [`Language`], used in request and result fields.
pub type LanguageCode = Language;

/// Every supported language, in catalog order.
pub const SUPPORTED_LANGUAGES: [Language; 13] = [
    Language::Zh,
    Language::En,
    Language::Ja,
    Language::Ko,
    Language::Fr,
    Language::De,
    Language::Es,
    Language::Pt,
    Language::Ru,
    Language::It,
    Language::Ar,
    Language::Th,
    Language::Tr,
];

/// The canonical lower-case code of a language.
pub open spec fn code(l: Language) -> Seq<char> {
    match l {
        Language::Zh => "zh"@,
        Language::En => "en"@,
        Language::Ja => "ja"@,
        Language::Ko => "ko"@,
        Language::Fr => "fr"@,
        Language::De => "de"@,
        Language::Es => "es"@,
        Language::Pt => "pt"@,
        Language::Ru => "ru"@,
        Language::It => "it"@,
        Language::Ar => "ar"@,
        Language::Th => "th"@,
        Language::Tr => "tr"@,
    }
}

/// The supported languages, in catalog order.
pub open spec fn all_languages() -> Seq<Language> {
    seq![
        Language::Zh,
        Language::En,
        Language::Ja,
        Language::Ko,
        Language::Fr,
        Language::De,
        Language::Es,
        Language::Pt,
        Language::Ru,
        Language::It,
        Language::Ar,
        Language::Th,
        Language::Tr,
    ]
}

/// The codes of the supported languages, in catalog order.
pub open spec fn all_codes() -> Seq<Seq<char>> {
    all_languages().map_values(|l: Language| code(l))
}

/// The language whose canonical code is exactly `t`, if any.
pub open spec fn lookup(t: Seq<char>) -> Option<Language> {
    if t == code(Language::Zh) {
        Some(Language::Zh)
    } else if t == code(Language::En) {
        Some(Language::En)
    } else if t == code(Language::Ja) {
        Some(Language::Ja)
    } else if t == code(Language::Ko) {
        Some(Language::Ko)
    } else if t == code(Language::Fr) {
        Some(Language::Fr)
    } else if t == code(Language::De) {
        Some(Language::De)
    } else if t == code(Language::Es) {
        Some(Language::Es)
    } else if t == code(Language::Pt) {
        Some(Language::Pt)
    } else if t == code(Language::Ru) {
        Some(Language::Ru)
    } else if t == code(Language::It) {
        Some(Language::It)
    } else if t == code(Language::Ar) {
        Some(Language::Ar)
    } else if t == code(Language::Th) {
        Some(Language::Th)
    } else if t == code(Language::Tr) {
        Some(Language::Tr)
    } else {
        None
    }
}

/// What [`Language::parse`] gives for a text: trimmed, ASCII lower-cased,
/// then looked up among the canonical codes.
pub open spec fn parse_spec(s: Seq<char>) -> Option<Language> {
    lookup(lower(trim(s)))
}

impl Language {
    /// The canonical lower-case code, e.g. `"zh"`.
    pub fn as_str(&self) -> (r: &'static str)
        ensures
            r@ == code(*self),
    {
        match self {
            Language::Zh => "zh",
            Language::En => "en",
            Language::Ja => "ja",
            Language::Ko => "ko",
            Language::Fr => "fr",
            Language::De => "de",
            Language::Es => "es",
            Language::Pt => "pt",
            Language::Ru => "ru",
            Language::It => "it",
            Language::Ar => "ar",
            Language::Th => "th",
            Language::Tr => "tr",
        }
    }

    /// Parse a language code (case-insensitive, surrounding whitespace
    /// ignored). Returns `None` for unknown codes.
    pub fn parse(code: &str) -> (r: Option<Language>)
        ensures
            r == parse_spec(code@),
    {
        let t = trim_str(code);
        if lower_eq(t, "zh") {
            Some(Language::Zh)
        } else if lower_eq(t, "en") {
            Some(Language::En)
        } else if lower_eq(t, "ja") {
            Some(Language::Ja)
        } else if lower_eq(t, "ko") {
            Some(Language::Ko)
        } else if lower_eq(t, "fr") {
            Some(Language::Fr)
        } else if lower_eq(t, "de") {
            Some(Language::De)
        } else if lower_eq(t, "es") {
            Some(Language::Es)
        } else if lower_eq(t, "pt") {
            Some(Language::Pt)
        } else if lower_eq(t, "ru") {
            Some(Language::Ru)
        } else if lower_eq(t, "it") {
            Some(Language::It)
        } else if lower_eq(t, "ar") {
            Some(Language::Ar)
        } else if lower_eq(t, "th") {
            Some(Language::Th)
        } else if lower_eq(t, "tr") {
            Some(Language::Tr)
        } else {
            None
        }
    }
}

/// A language as its canonical code, e.g. `"zh"`.
impl From<Language> for String {
    fn from(l: Language) -> (r: String)
        ensures
            r@ == code(l),
    {
        String::from_str(l.as_str())
    }
}

/// The generic conversion contract is not used; the impl states its result.
impl vstd::std_specs::convert::FromSpecImpl<Language> for String {
    open spec fn obeys_from_spec() -> bool {
        false
    }

    open spec fn from_spec(v: Language) -> String {
        arbitrary()
    }
}

/// The message a text that is no supported code is refused with.
pub open spec fn unsupported_code_message(s: Seq<char>) -> Seq<char> {
    "unsupported language code: "@ + s
}

/// A language from its code, as [`Language::parse`] reads it; an unknown
/// code is refused with a message that quotes it.
impl TryFrom<String> for Language {
    type Error = String;

    fn try_from(s: String) -> (r: Result<Language, String>)
        ensures
            match parse_spec(s@) {
                Some(l) => r == Ok::<Language, String>(l),
                None => r matches Err(e) && e@ == unsupported_code_message(s@),
            },
    {
        match Language::parse(s.as_str()) {
            Some(l) => Ok(l),
            None => Err(String::from_str("unsupported language code: ").concat(s.as_str())),
        }
    }
}

/// The generic conversion contract is not used; the impl states its result.
impl vstd::std_specs::convert::TryFromSpecImpl<String> for Language {
    open spec fn obeys_try_from_spec() -> bool {
        false
    }

    open spec fn try_from_spec(v: String) -> Result<Language, String> {
        arbitrary()
    }
}

/// The codes of all supported languages, in catalog order.
pub fn supported_codes() -> (r: Vec<&'static str>)
    ensures
        r@.map_values(|s: &str| s@) == all_codes(),
{
    let mut r: Vec<&'static str> = Vec::new();
    let mut i: usize = 0;
    assert(SUPPORTED_LANGUAGES@ == all_languages());
    while i < 13
        invariant
            i <= 13,
            SUPPORTED_LANGUAGES@ == all_languages(),
            r@.len() == i,
            forall|k: int| 0 <= k < i ==> (#[trigger] r@[k])@ == code(all_languages()[k]),
        decreases 13 - i,
    {
        let l = SUPPORTED_LANGUAGES[i];
        assert(l == all_languages()[i as int]);
        r.push(l.as_str());
        i = i + 1;
    }
    assert(r@.map_values(|s: &str| s@) =~= all_codes());
    r
}

/// Reading back a canonical code gives the language it came from:
/// `Language::parse(l.as_str()) == Some(l)` for every language.
pub proof fn lemma_parse_code_roundtrip(l: Language)
    ensures
        parse_spec(code(l)) == Some(l),
{
    reveal_strlit("zh");
    reveal_strlit("en");
    reveal_strlit("ja");
    reveal_strlit("ko");
    reveal_strlit("fr");
    reveal_strlit("de");
    reveal_strlit("es");
    reveal_strlit("pt");
    reveal_strlit("ru");
    reveal_strlit("it");
    reveal_strlit("ar");
    reveal_strlit("th");
    reveal_strlit("tr");
    let c = code(l);
    assert(c.len() == 2);
    crate::text::lemma_trim_of_unpadded(c);
    crate::text::lemma_lower_of_lowercase(c);
}

/// Looking up a canonical code finds its language.
pub proof fn lemma_lookup_code(l: Language)
    ensures
        lookup(code(l)) == Some(l),
{
    lemma_parse_code_roundtrip(l);
    let c = code(l);
    reveal_strlit("zh");
    reveal_strlit("en");
    reveal_strlit("ja");
    reveal_strlit("ko");
    reveal_strlit("fr");
    reveal_strlit("de");
    reveal_strlit("es");
    reveal_strlit("pt");
    reveal_strlit("ru");
    reveal_strlit("it");
    reveal_strlit("ar");
    reveal_strlit("th");
    reveal_strlit("tr");
    crate::text::lemma_trim_of_unpadded(c);
    crate::text::lemma_lower_of_lowercase(c);
}

/// A text that is none of the catalog's codes is looked up as `None`.
pub proof fn lemma_lookup_misses(t: Seq<char>)
    requires
        forall|k: int| 0 <= k < 13 ==> t != code(#[trigger] all_languages()[k]),
    ensures
        lookup(t) is None,
{
    assert(t != code(all_languages()[0]));
    assert(t != code(all_languages()[1]));
    assert(t != code(all_languages()[2]));
    assert(t != code(all_languages()[3]));
    assert(t != code(all_languages()[4]));
    assert(t != code(all_languages()[5]));
    assert(t != code(all_languages()[6]));
    assert(t != code(all_languages()[7]));
    assert(t != code(all_languages()[8]));
    assert(t != code(all_languages()[9]));
    assert(t != code(all_languages()[10]));
    assert(t != code(all_languages()[11]));
    assert(t != code(all_languages()[12]));
}

/// Distinct languages have distinct codes.
pub proof fn lemma_code_injective(a: Language, b: Language)
    ensures
        code(a) == code(b) ==> a == b,
{
    lemma_parse_code_roundtrip(a);
    lemma_parse_code_roundtrip(b);
}

} // verus!
