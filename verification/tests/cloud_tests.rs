use voice_translator::cloud::{ChatReply, HealthReply};
use voice_translator::translation::{CloudTranslator, LanguageCode, TranslationError, TranslationRequest};

#[test]
fn cloud_translator_constructs_with_no_key() {
    let t = CloudTranslator::new("http://localhost:7860", "Hy-MT2-1.8B", None);
    assert!(t.is_ok());
    assert_eq!(t.unwrap().backend_name(), "cloud");
}

#[test]
fn cloud_translator_strips_trailing_slash_from_base_url() {
    let t = CloudTranslator::new("http://localhost:7860/", "m", None).unwrap();
    let expected = "http://localhost:7860/v1/chat/completions";
    let req = TranslationRequest::new("hello", LanguageCode::En, LanguageCode::Zh);
    let call = t.chat_call(&req).unwrap();
    assert_eq!(call.url, expected);
    assert_eq!(t.health_check_request().url, "http://localhost:7860/v1/models");
}

#[test]
fn cloud_translator_returns_http_error_for_500() {
    let t = CloudTranslator::new("http://127.0.0.1:1", "m", None).unwrap();
    let req = TranslationRequest::new("hello", LanguageCode::En, LanguageCode::Zh);
    let body = r#"{"error":{"message":"boom"}}"#.to_string();
    let err = t
        .finish_translation(req, ChatReply::Status { status: 500, body: body.clone() })
        .unwrap_err();
    match err {
        TranslationError::Http { status, body: b } => {
            assert_eq!(status, 500);
            assert_eq!(b, body);
        }
        other => panic!("expected HTTP error, got {:?}", other),
    }
}

#[test]
fn cloud_translator_parses_successful_response() {
    let t = CloudTranslator::new("http://127.0.0.1:1", "m", None).unwrap();
    let req = TranslationRequest::new("hello", LanguageCode::En, LanguageCode::Zh);
    let res = t
        .finish_translation(req, ChatReply::Choices(vec![" 你好\n".to_string(), "x".into()]))
        .unwrap();
    assert_eq!(res.translated, "你好");
    assert_eq!(res.backend, "cloud");
    assert_eq!(res.original, "hello");
}

#[test]
fn cloud_health_check_succeeds_against_responding_server() {
    let t = CloudTranslator::new("http://127.0.0.1:1", "m", None).unwrap();
    t.finish_health_check(HealthReply::Responded(200)).unwrap();
    t.finish_health_check(HealthReply::Responded(404)).unwrap();
}

#[test]
fn cloud_health_check_fails_on_server_error() {
    let t = CloudTranslator::new("http://127.0.0.1:1", "m", None).unwrap();
    let err = t.finish_health_check(HealthReply::Responded(503)).unwrap_err();
    assert!(matches!(err, TranslationError::Http { status: 503, .. }));
}

// --- further cases ---------------------------------------------------------

#[test]
fn chat_call_carries_prompt_model_text_and_key() {
    let t = CloudTranslator::new("http://h:1//", "Hy", Some("SECRET-REDACTED".to_string())).unwrap();
    let req = TranslationRequest::new("guten Tag", LanguageCode::De, LanguageCode::En);
    let call = t.chat_call(&req).unwrap();
    assert_eq!(call.url, "http://h:1/v1/chat/completions");
    assert_eq!(call.model, "Hy");
    assert_eq!(call.user, "guten Tag");
    assert_eq!(
        call.system,
        "You are a translation engine. Translate the user's text from de to en. Reply with ONLY the translated text, no quotes, no commentary, no explanation."
    );
    assert_eq!(call.bearer.as_deref(), Some("SECRET-REDACTED"));
}

#[test]
fn chat_call_refuses_bad_requests() {
    let t = CloudTranslator::new("http://h:1", "m", None).unwrap();
    let req = TranslationRequest::new("", LanguageCode::De, LanguageCode::En);
    assert_eq!(t.chat_call(&req).err(), Some(TranslationError::EmptyText));
    let req = TranslationRequest::new("x", LanguageCode::De, LanguageCode::De);
    assert!(matches!(t.chat_call(&req), Err(TranslationError::SourceEqualsTarget { .. })));
}

#[test]
fn no_choices_is_an_error() {
    let t = CloudTranslator::new("http://h:1", "m", None).unwrap();
    let req = TranslationRequest::new("hello", LanguageCode::En, LanguageCode::Zh);
    assert_eq!(
        t.finish_translation(req, ChatReply::Choices(vec![])).unwrap_err(),
        TranslationError::Other("chat completion returned no choices".to_string())
    );
}

#[test]
fn transport_failures_are_classified() {
    assert_eq!(TranslationError::from_transport(true, true, "t".into()), TranslationError::Timeout);
    assert_eq!(
        TranslationError::from_transport(false, true, "c".into()),
        TranslationError::BackendUnavailable("c".into())
    );
    assert_eq!(
        TranslationError::from_transport(false, false, "o".into()),
        TranslationError::Other("o".into())
    );
    let e = serde_json::from_str::<u8>("x").unwrap_err();
    assert!(matches!(TranslationError::from_serde_json(e), TranslationError::Serde(_)));
}

#[test]
fn with_timeout_keeps_the_endpoint_and_key() {
    let t = CloudTranslator::new("http://h:1/", "m", Some("k".to_string()))
        .unwrap()
        .with_timeout(std::time::Duration::from_secs(3));
    assert_eq!(t.backend_name(), "cloud");
    let req = TranslationRequest::new("hello", LanguageCode::En, LanguageCode::Zh);
    let call = t.chat_call(&req).unwrap();
    assert_eq!(call.url, "http://h:1/v1/chat/completions");
    assert_eq!(call.bearer, Some("k".to_string()));
}

#[test]
fn outside_errors_convert_into_translation_errors() {
    let e = serde_json::from_str::<u8>("x").unwrap_err();
    let text = e.to_string();
    assert_eq!(TranslationError::from(e), TranslationError::Serde(text));
    let rt = tokio::runtime::Builder::new_current_thread().enable_all().build().unwrap();
    let e = rt.block_on(reqwest::Client::new().get("http://127.0.0.1:1/").send()).unwrap_err();
    assert!(matches!(
        TranslationError::from(e),
        TranslationError::Timeout | TranslationError::BackendUnavailable(_) | TranslationError::Other(_)
    ));
}
