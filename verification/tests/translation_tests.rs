use voice_translator::language::{Language, SUPPORTED_LANGUAGES};
use voice_translator::translation::{
    mock_translate, validate_language, validate_request, LanguageCode, StubTranslator,
    TranslationError, TranslationRequest,
};

#[test]
fn validate_language_accepts_known_codes() {
    assert_eq!(validate_language("zh").unwrap(), LanguageCode::Zh);
    assert_eq!(validate_language("EN").unwrap(), LanguageCode::En);
    assert_eq!(validate_language(" ja ").unwrap(), LanguageCode::Ja);
}

#[test]
fn validate_language_rejects_unknown() {
    let err = validate_language("klingon").unwrap_err();
    assert!(matches!(err, TranslationError::UnsupportedLanguage { .. }));
}

#[test]
fn stub_translates_known_phrases() {
    let t = StubTranslator::new();
    let req = TranslationRequest::new("你好", LanguageCode::Zh, LanguageCode::En);
    let res = t.translate(req).unwrap();
    assert_eq!(res.translated, "hello");
    assert_eq!(res.source, LanguageCode::Zh);
    assert_eq!(res.target, LanguageCode::En);
    assert_eq!(res.backend, "local-stub");
}

#[test]
fn stub_translates_known_phrase_reverse_direction() {
    let t = StubTranslator::new();
    let req = TranslationRequest::new("hello", LanguageCode::En, LanguageCode::Zh);
    let res = t.translate(req).unwrap();
    assert_eq!(res.translated, "你好");
}

#[test]
fn stub_echoes_unknown_phrases_with_marker() {
    let t = StubTranslator::new();
    let req = TranslationRequest::new("greetings, traveler", LanguageCode::En, LanguageCode::Ja);
    let res = t.translate(req).unwrap();
    assert!(res.translated.contains("[stub en→ja]"));
    assert!(res.translated.contains("greetings, traveler"));
}

#[test]
fn stub_rejects_empty_text() {
    let t = StubTranslator::new();
    let req = TranslationRequest::new("   ", LanguageCode::En, LanguageCode::Zh);
    let err = t.translate(req).unwrap_err();
    assert_eq!(err, TranslationError::EmptyText);
}

#[test]
fn stub_rejects_same_source_and_target() {
    let t = StubTranslator::new();
    let req = TranslationRequest::new("hello", LanguageCode::En, LanguageCode::En);
    let err = t.translate(req).unwrap_err();
    assert!(matches!(err, TranslationError::SourceEqualsTarget { .. }));
}

#[test]
fn stub_with_custom_allowlist_rejects_unsupported() {
    let t = StubTranslator::new()
        .with_allowed(vec![LanguageCode::Zh.as_str(), LanguageCode::En.as_str()]);
    let req = TranslationRequest::new("hi", LanguageCode::En, LanguageCode::Ja);
    let err = t.translate(req).unwrap_err();
    assert!(matches!(err, TranslationError::UnsupportedLanguage { .. }));
}

#[test]
fn stub_health_check_always_ok() {
    let t = StubTranslator::new();
    assert!(t.health_check().is_ok());
}

#[test]
fn translation_error_display_messages_are_informative() {
    let err = TranslationError::UnsupportedLanguage {
        requested: "klingon".to_string(),
        supported: vec!["zh", "en"],
    };
    let msg = err.message();
    assert!(msg.contains("klingon"));
    assert!(msg.contains("zh"));
}

// --- further cases ---------------------------------------------------------

#[test]
fn every_code_parses_back_to_its_language() {
    for l in SUPPORTED_LANGUAGES.iter() {
        assert_eq!(Language::parse(l.as_str()), Some(*l));
        assert_eq!(validate_language(l.as_str()).unwrap(), *l);
    }
    assert_eq!(SUPPORTED_LANGUAGES.len(), 13);
}

#[test]
fn parse_ignores_case_and_surrounding_whitespace() {
    assert_eq!(Language::parse("  Tr\n"), Some(Language::Tr));
    assert_eq!(Language::parse("\u{3000}KO\t"), Some(Language::Ko));
    assert_eq!(Language::parse("z h"), None);
    assert_eq!(Language::parse(""), None);
    assert_eq!(Language::parse("zho"), None);
}

#[test]
fn validate_language_error_lists_every_code() {
    match validate_language("xx") {
        Err(TranslationError::UnsupportedLanguage { requested, supported }) => {
            assert_eq!(requested, "xx");
            assert_eq!(
                supported,
                vec!["zh", "en", "ja", "ko", "fr", "de", "es", "pt", "ru", "it", "ar", "th", "tr"]
            );
        }
        other => panic!("expected UnsupportedLanguage, got {:?}", other),
    }
}

#[test]
fn allowlist_error_reports_requested_code_and_list() {
    let t = StubTranslator::new().with_allowed(vec!["zh", "en", "zh"]);
    let req = TranslationRequest::new("hi", LanguageCode::Ja, LanguageCode::En);
    match t.translate(req) {
        Err(TranslationError::UnsupportedLanguage { requested, supported }) => {
            assert_eq!(requested, "ja");
            assert_eq!(supported, vec!["zh", "en"]);
        }
        other => panic!("expected UnsupportedLanguage, got {:?}", other),
    }
    let ok = t.translate(TranslationRequest::new("hello", LanguageCode::En, LanguageCode::Zh));
    assert_eq!(ok.unwrap().translated, "你好");
}

#[test]
fn target_checked_after_source() {
    let t = StubTranslator::new().with_allowed(vec!["en"]);
    let req = TranslationRequest::new("hi", LanguageCode::En, LanguageCode::Fr);
    match t.translate(req) {
        Err(TranslationError::UnsupportedLanguage { requested, .. }) => assert_eq!(requested, "fr"),
        other => panic!("expected UnsupportedLanguage, got {:?}", other),
    }
}

#[test]
fn blank_text_checked_before_languages() {
    let req = TranslationRequest::new(" \t\n", LanguageCode::En, LanguageCode::En);
    assert_eq!(validate_request(&req, &None), Err(TranslationError::EmptyText));
    let req = TranslationRequest::new("x", LanguageCode::De, LanguageCode::De);
    assert_eq!(
        validate_request(&req, &None),
        Err(TranslationError::SourceEqualsTarget { language: LanguageCode::De })
    );
    let req = TranslationRequest::new("x", LanguageCode::De, LanguageCode::Fr);
    assert_eq!(validate_request(&req, &None), Ok(()));
}

#[test]
fn stub_named_backend_reports_its_name() {
    let t = StubTranslator::with_name("offline");
    assert_eq!(t.backend_name(), "offline");
    let res = t
        .translate(TranslationRequest::new("  Thank You ", LanguageCode::En, LanguageCode::Ja))
        .unwrap();
    assert_eq!(res.translated, "ありがとう");
    assert_eq!(res.original, "  Thank You ");
    assert_eq!(res.backend, "offline");
}

#[test]
fn mock_phrase_table_round_trips() {
    for p in ["你好", "再见", "谢谢"] {
        let en = mock_translate(p, LanguageCode::Zh, LanguageCode::En);
        assert_eq!(mock_translate(&en, LanguageCode::En, LanguageCode::Zh), p);
    }
    assert_eq!(mock_translate("再见", LanguageCode::Zh, LanguageCode::En), "goodbye");
    assert_eq!(
        mock_translate("hello", LanguageCode::Fr, LanguageCode::De),
        "[stub fr→de] hello"
    );
}

#[test]
fn error_messages_match_each_variant() {
    assert_eq!(TranslationError::EmptyText.message(), "translation text is empty");
    assert_eq!(
        TranslationError::SourceEqualsTarget { language: LanguageCode::En }.message(),
        "source and target languages are both en; nothing to translate"
    );
    assert_eq!(
        TranslationError::BackendUnavailable("refused".into()).message(),
        "translation backend unavailable: refused"
    );
    assert_eq!(
        TranslationError::Http { status: 503, body: "down".into() }.message(),
        "translation HTTP error 503: down"
    );
    assert_eq!(TranslationError::Timeout.message(), "translation request timed out");
    assert_eq!(TranslationError::Serde("bad".into()).message(), "translation serde error: bad");
    assert_eq!(TranslationError::Other("plain".into()).message(), "plain");
    assert_eq!(
        TranslationError::UnsupportedLanguage {
            requested: "klingon".into(),
            supported: vec!["zh", "en"]
        }
        .message(),
        "unsupported language 'klingon' (supported: zh, en)"
    );
}

#[test]
fn language_converts_to_and_from_its_code() {
    for &l in SUPPORTED_LANGUAGES.iter() {
        let s = String::from(l);
        assert_eq!(s, l.as_str());
        assert_eq!(Language::try_from(s), Ok(l));
    }
    let s: String = Language::Ja.into();
    assert_eq!(s, "ja");
    assert_eq!(Language::try_from(" EN ".to_string()), Ok(Language::En));
    assert_eq!(
        Language::try_from("xx".to_string()),
        Err("unsupported language code: xx".to_string())
    );
}
