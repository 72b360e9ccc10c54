use voice_translator::cli::{help_text, parse_args, parse_lang, parse_u64, Args, CliCommand, NumberError};
use voice_translator::translation::LanguageCode;

fn words(ws: &[&str]) -> Vec<String> {
    ws.iter().map(|w| w.to_string()).collect()
}

#[test]
fn no_flags_gives_default_mock_en_to_zh() {
    assert_eq!(parse_args(&words(&[])), Ok(CliCommand::Run(Args::default())));
    let d = Args::default();
    assert!(!d.realtime);
    assert_eq!((d.source, d.target, d.budget_secs), (LanguageCode::En, LanguageCode::Zh, 0));
}

#[test]
fn flags_are_applied_in_order() {
    let r = parse_args(&words(&["--realtime", "--source", "ZH", "--target", "en", "--budget", "+12"]));
    assert_eq!(
        r,
        Ok(CliCommand::Run(Args {
            realtime: true,
            source: LanguageCode::Zh,
            target: LanguageCode::En,
            budget_secs: 12
        }))
    );
    let r = parse_args(&words(&["--realtime", "--mock"]));
    assert_eq!(r, Ok(CliCommand::Run(Args::default())));
}

#[test]
fn help_wins_when_reached_first() {
    assert_eq!(parse_args(&words(&["--mock", "-h", "--bogus"])), Ok(CliCommand::Help));
    assert_eq!(parse_args(&words(&["--help"])), Ok(CliCommand::Help));
    assert_eq!(
        parse_args(&words(&["--bogus", "--help"])),
        Err("unknown flag: --bogus".to_string())
    );
}

#[test]
fn missing_values_are_reported() {
    assert_eq!(parse_args(&words(&["--source"])), Err("--source needs a value".to_string()));
    assert_eq!(parse_args(&words(&["--target"])), Err("--target needs a value".to_string()));
    assert_eq!(
        parse_args(&words(&["--budget"])),
        Err("--budget needs a value in seconds".to_string())
    );
}

#[test]
fn same_source_and_target_is_refused() {
    assert_eq!(
        parse_args(&words(&["--source", "zh", "--target", "ZH"])),
        Err("source and target must differ (both are 'zh')".to_string())
    );
}

#[test]
fn bad_budget_values_are_reported_like_std() {
    assert_eq!(
        parse_args(&words(&["--budget", "abc"])),
        Err("invalid --budget: invalid digit found in string".to_string())
    );
    assert_eq!(
        parse_args(&words(&["--budget", ""])),
        Err("invalid --budget: cannot parse integer from empty string".to_string())
    );
    assert_eq!(
        parse_args(&words(&["--budget", "18446744073709551616"])),
        Err("invalid --budget: number too large to fit in target type".to_string())
    );
}

#[test]
fn parse_u64_agrees_with_std() {
    for s in ["0", "7", "+42", "18446744073709551615", "18446744073709551616", "", "+", "-",
              "-1", "1a", "a1", " 1", "00012", "99999999999999999999x", "١٢"] {
        let ours = parse_u64(s);
        let std = s.parse::<u64>();
        match (ours, std) {
            (Ok(a), Ok(b)) => assert_eq!(a, b, "{s:?}"),
            (Err(e), Err(f)) => {
                let kind = match e {
                    NumberError::Empty => std::num::IntErrorKind::Empty,
                    NumberError::InvalidDigit => std::num::IntErrorKind::InvalidDigit,
                    NumberError::PosOverflow => std::num::IntErrorKind::PosOverflow,
                };
                assert_eq!(&kind, f.kind(), "{s:?}");
            }
            (a, b) => panic!("{s:?}: {a:?} vs {b:?}"),
        }
    }
}

#[test]
fn parse_lang_is_case_insensitive_but_not_trimmed() {
    assert_eq!(parse_lang("FR"), Ok(LanguageCode::Fr));
    assert_eq!(
        parse_lang(" fr"),
        Err("unsupported language ' fr' (supported: zh, en, ja, ko, fr, de, es, pt, ru, it, ar, th, tr)".to_string())
    );
}

#[test]
fn help_lists_flags_and_languages() {
    let h = help_text();
    assert!(h.starts_with("voice-translator-gui — eframe frontend"));
    assert!(h.contains("    --budget SECONDS    Worker budget in seconds (0 = default 30s).\n"));
    assert!(h.ends_with("SUPPORTED LANGUAGES: zh, en, ja, ko, fr, de, es, pt, ru, it, ar, th, tr\n"));
    assert_eq!(h.lines().count(), 14);
}
