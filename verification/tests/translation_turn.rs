use transnet::domain::translation_turn::{LexicalMeaningDraft, LexicalTurnDraft, MAX_DERIVED_FORMS, MAX_TURN_BYTES, ResponseLevel, SourceLanguage, TranslationHistory, TranslationNormalizer, TranslationTurn, TranslationTurnRequest, TranslationTurnResult, TranslationUnit, TurnExample, TurnLanguage, TurnValidationError};

fn request() -> TranslationTurnRequest {
    TranslationTurnRequest {
        text: "C++".to_string(),
        source_language: "en".to_string(),
        target_language: "zh-CN".to_string(),
        response_level: "standard".to_string(),
        history: Vec::new(),
    }
}

fn history(source_text: impl Into<String>) -> TranslationHistory {
    TranslationHistory {
        source_text: source_text.into(),
        translated_text: "译文".to_string(),
        source_language: "en".to_string(),
        target_language: "zh-CN".to_string(),
    }
}

#[test]
fn accepts_only_the_initial_closed_language_and_response_level_sets() {
    for source in ["auto", "en", "zh-CN"] {
        for target in ["en", "zh-CN"] {
            for level in ["brief", "standard", "full"] {
                let mut input = request();
                input.source_language = source.to_string();
                input.target_language = target.to_string();
                input.response_level = level.to_string();
                assert!(TranslationTurn::new(input).is_ok());
            }
        }
    }

    for source in ["EN", "zh-cn", "fr", "", "en-US"] {
        let mut input = request();
        input.source_language = source.to_string();
        assert_eq!(
            TranslationTurn::new(input).err().unwrap(),
            TurnValidationError::Field("source_language")
        );
    }

    let mut input = request();
    input.target_language = "auto".to_string();
    assert_eq!(
        TranslationTurn::new(input).err().unwrap(),
        TurnValidationError::Field("target_language")
    );
}

#[test]
fn normalizer_is_versioned_nfc_and_language_aware() {
    let normalizer = TranslationNormalizer::new();
    let normalized = normalizer.normalize(
        "  CAFE\u{301}\tTEST  ",
        SourceLanguage::Known(TurnLanguage::English),
    );
    assert_eq!(normalizer.version(), "translation-lookup-nfc-v1");
    assert_eq!(normalized.primary, "caf\u{e9} test");

    let chinese = normalizer.normalize("术语 C++", SourceLanguage::Known(TurnLanguage::Chinese));
    assert_eq!(chinese.primary, "术语 C++");
}

#[test]
fn normalizer_maps_equivalent_punctuation_and_collapses_whitespace() {
    let normalized = TranslationNormalizer::new().normalize(
        "  \u{201c}Up\u{2014}in\u{2014}the\u{2014}air\u{201d}\u{3000}test  ",
        SourceLanguage::Known(TurnLanguage::English),
    );
    assert_eq!(normalized.primary, "\"up-in-the-air\" test");
    assert_eq!(normalized.derived_forms[1], "up-in-the-air\" test");
    assert!(normalized.derived_forms.len() <= MAX_DERIVED_FORMS);
}

#[test]
fn normalizer_preserves_meaningful_technical_symbols() {
    let normalizer = TranslationNormalizer::new();
    let c = normalizer.normalize("C", SourceLanguage::Known(TurnLanguage::English));
    let cpp = normalizer.normalize(
        "C\u{ff0b}\u{ff0b}",
        SourceLanguage::Known(TurnLanguage::English),
    );
    let csharp = normalizer.normalize("C\u{ff03}", SourceLanguage::Known(TurnLanguage::English));
    assert_eq!(c.primary, "c");
    assert_eq!(cpp.primary, "c++");
    assert_eq!(csharp.primary, "c#");
    assert_ne!(c.primary, cpp.primary);
    assert_ne!(c.primary, csharp.primary);
    assert_ne!(cpp.primary, csharp.primary);
}

#[test]
fn derived_forms_are_bounded_deduplicated_and_keep_symbols() {
    let normalized = TranslationNormalizer::new()
        .normalize("\"C++?!\"", SourceLanguage::Known(TurnLanguage::English));
    assert!(normalized.derived_forms.len() <= MAX_DERIVED_FORMS);
    assert_eq!(normalized.derived_forms[0], "\"c++?!\"");
    assert!(normalized
        .derived_forms
        .iter()
        .any(|form| form.contains("c++")));
    let unique = normalized
        .derived_forms
        .iter()
        .collect::<std::collections::BTreeSet<_>>();
    assert_eq!(unique.len(), normalized.derived_forms.len());
}

#[test]
fn history_has_no_item_cap_inside_the_common_body_bound() {
    let mut input = request();
    input.history = (0..2_048)
        .map(|index| history(format!("turn-{index}")))
        .collect();
    let turn = TranslationTurn::new(input).unwrap();
    assert_eq!(turn.history().len(), 2_048);
}

#[test]
fn history_and_current_text_share_the_one_mebibyte_bound() {
    let mut oversized_history = request();
    oversized_history.history = vec![history("x".repeat(MAX_TURN_BYTES))];
    assert_eq!(
        TranslationTurn::new(oversized_history).err().unwrap(),
        TurnValidationError::TooLarge
    );

    let mut oversized_text = request();
    oversized_text.text = "x".repeat(MAX_TURN_BYTES);
    assert_eq!(
        TranslationTurn::new(oversized_text).err().unwrap(),
        TurnValidationError::TooLarge
    );
}

#[test]
fn history_rejects_blank_text_and_non_closed_language_tags() {
    let mut blank = request();
    blank.history = vec![history("  ")];
    assert_eq!(
        TranslationTurn::new(blank).err().unwrap(),
        TurnValidationError::Field("history")
    );

    let mut unsupported = request();
    let mut prior = history("hello");
    prior.source_language = "auto".to_string();
    unsupported.history = vec![prior];
    assert_eq!(
        TranslationTurn::new(unsupported).err().unwrap(),
        TurnValidationError::Field("history")
    );
}

#[test]
fn projection_changes_only_supporting_breadth() {
    let draft = LexicalTurnDraft {
        translations: vec![
            LexicalMeaningDraft {
                text: "热的".to_string(),
                meaning: "high temperature".to_string(),
                part_of_speech: "adjective".to_string(),
                phrase_type: String::new(),
                aliases: vec!["heated".to_string()],
                examples: vec![
                    TurnExample {
                        source_text: "hot tea".to_string(),
                        translated_text: "热茶".to_string(),
                    },
                    TurnExample {
                        source_text: "hot day".to_string(),
                        translated_text: "炎热的一天".to_string(),
                    },
                ],
                usage_notes: vec![
                    "temperature".to_string(),
                    "literal".to_string(),
                    "common".to_string(),
                ],
            },
            LexicalMeaningDraft {
                text: "热门的".to_string(),
                meaning: "popular".to_string(),
                part_of_speech: "adjective".to_string(),
                phrase_type: String::new(),
                aliases: Vec::new(),
                examples: Vec::new(),
                usage_notes: Vec::new(),
            },
        ],
    };
    assert!(draft.is_valid(TranslationUnit::Word));
    let full = TranslationTurnResult::lexical(
        draft,
        TranslationUnit::Word,
        TurnLanguage::English,
        TurnLanguage::Chinese,
    );
    let brief = full.clone().project(ResponseLevel::Brief);
    let standard = full.clone().project(ResponseLevel::Standard);
    let full = full.project(ResponseLevel::Full);

    for result in [&brief, &standard, &full] {
        assert_eq!(result.translations.len(), 2);
        assert_eq!(result.translations[0].text, "热的");
        assert_eq!(result.translations[1].meaning.as_deref(), Some("popular"));
    }
    assert!(brief.translations[0].details.is_none());
    assert_eq!(
        standard.translations[0]
            .details
            .as_ref()
            .unwrap()
            .examples
            .len(),
        1
    );
    assert!(standard.translations[0]
        .details
        .as_ref()
        .unwrap()
        .aliases
        .is_empty());
    assert_eq!(
        full.translations[0]
            .details
            .as_ref()
            .unwrap()
            .examples
            .len(),
        2
    );
}

#[test]
fn debug_and_validation_errors_never_contain_request_or_history_text() {
    let secret_text = "current-secret-8172";
    let history_secret = "history-secret-4815";
    let mut input = request();
    input.text = secret_text.to_string();
    input.history = vec![history(history_secret)];
    assert_eq!(input.redacted_debug(), "TranslationTurnRequest(REDACTED)");
    let turn = TranslationTurn::new(input).unwrap();
    let rendered = turn.redacted_debug();
    assert!(!rendered.contains(secret_text));
    assert!(!rendered.contains(history_secret));

    let mut invalid = request();
    invalid.text = secret_text.to_string();
    invalid.history = vec![history("  ")];
    let error = TranslationTurn::new(invalid).err().unwrap().message();
    assert!(!error.contains(secret_text));
    assert!(!error.contains(history_secret));
}

#[test]
fn json_escaping_counts_toward_the_one_mebibyte_bound() {
    // Each quote takes one raw byte but two bytes once escaped as JSON.
    let mut escaped = request();
    escaped.text = "\"".repeat(MAX_TURN_BYTES / 2 + 16);
    assert_eq!(
        TranslationTurn::new(escaped).err().unwrap(),
        TurnValidationError::TooLarge
    );

    let mut plain = request();
    plain.text = "x".repeat(MAX_TURN_BYTES / 2 + 16);
    assert!(TranslationTurn::new(plain).is_ok());

    let mut escaped_history = request();
    escaped_history.history = vec![history("\\".repeat(MAX_TURN_BYTES / 2 + 16))];
    assert_eq!(
        TranslationTurn::new(escaped_history).err().unwrap(),
        TurnValidationError::TooLarge
    );
}

fn wire_text(value: &str) -> serde_json::Value {
    serde_json::Value::String(value.to_string())
}

/// Bytes of `input` as `serde_json::to_vec` writes the same object; the order of the keys does
/// not change the length.
fn wire_len(input: &TranslationTurnRequest) -> usize {
    let mut history = Vec::new();
    for turn in &input.history {
        let mut item = serde_json::Map::new();
        item.insert("source_text".to_string(), wire_text(&turn.source_text));
        item.insert("translated_text".to_string(), wire_text(&turn.translated_text));
        item.insert("source_language".to_string(), wire_text(&turn.source_language));
        item.insert("target_language".to_string(), wire_text(&turn.target_language));
        history.push(serde_json::Value::Object(item));
    }
    let mut object = serde_json::Map::new();
    object.insert("text".to_string(), wire_text(&input.text));
    object.insert("source_language".to_string(), wire_text(&input.source_language));
    object.insert("target_language".to_string(), wire_text(&input.target_language));
    object.insert("response_level".to_string(), wire_text(&input.response_level));
    object.insert("history".to_string(), serde_json::Value::Array(history));
    serde_json::to_vec(&serde_json::Value::Object(object)).unwrap().len()
}

#[test]
fn json_bound_agrees_with_serde_json_at_the_limit() {
    let mut input = request();
    input.history = vec![
        history("he said \"hi\"\tthen\u{1}left\\"),
        history("second turn"),
    ];
    input.text = String::new();
    let room = MAX_TURN_BYTES - wire_len(&input);
    input.text = format!("{}{}", "\"".repeat(room / 2), "x".repeat(room % 2));
    assert_eq!(wire_len(&input), MAX_TURN_BYTES);
    assert!(TranslationTurn::new(input.clone()).is_ok());

    input.text.push('x');
    assert_eq!(wire_len(&input), MAX_TURN_BYTES + 1);
    assert_eq!(
        TranslationTurn::new(input).err().unwrap(),
        TurnValidationError::TooLarge
    );
}
