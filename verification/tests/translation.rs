use transnet::domain::translation::{CefrLevel, EnglishDialect, MAX_CONTEXT_CHARS, MAX_QUERY_CHARS, TranslationInput};

#[test]
fn input_normalizes_unicode_whitespace_and_language_tags() {
    let input = TranslationInput::new(
        "  cafe\u{301}  ",
        "FR",
        Some("  un cafe\u{301} chaud  "),
        "zh-cn",
        EnglishDialect::American,
        Some(CefrLevel::B1),
    )
    .unwrap();

    assert_eq!(input.query, "café");
    assert_eq!(input.context.as_deref(), Some("un café chaud"));
    assert_eq!(input.source_language, "fr");
    assert_eq!(input.explanation_language, "zh-CN");
}

#[test]
fn blank_context_is_removed() {
    let input = TranslationInput::new(
        "caliente",
        "es",
        Some("  "),
        "en",
        EnglishDialect::British,
        None,
    )
    .unwrap();

    assert_eq!(input.context, None);
}

#[test]
fn input_rejects_invalid_or_oversized_fields() {
    let cases = [
        TranslationInput::new(" ", "es", None, "en", EnglishDialect::American, None),
        TranslationInput::new(
            &"a".repeat(MAX_QUERY_CHARS + 1),
            "es",
            None,
            "en",
            EnglishDialect::American,
            None,
        ),
        TranslationInput::new("hola", "es_ES", None, "en", EnglishDialect::American, None),
        TranslationInput::new(
            "hola",
            "es",
            Some(&"a".repeat(MAX_CONTEXT_CHARS + 1)),
            "en",
            EnglishDialect::American,
            None,
        ),
    ];

    assert!(cases.into_iter().all(|result| result.is_err()));
}
