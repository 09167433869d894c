use transnet::domain::canonical::{CanonicalId, CanonicalValidationError};
use transnet::domain::canonical::{normalize_lookup_key, EvidenceUse, LanguageTag, SourcePermissions};

#[test]
fn language_tags_are_validated_and_canonicalized() {
    let language = LanguageTag::parse("zh-cn").unwrap();

    assert_eq!(language.as_str(), "zh-CN");
    assert_eq!(LanguageTag::parse("en-US").unwrap().primary_language().as_str(), "en");
    assert!(LanguageTag::parse("zh_CN").is_err());
    assert!(LanguageTag::parse(" en ").is_err());
}

#[test]
fn permissions_are_checked_per_evidence_operation() {
    let permissions = SourcePermissions {
        storage: true,
        display: true,
        embedding: false,
        model_processing: false,
        api_redistribution: true,
    };

    assert!(permissions.allows(EvidenceUse::Display));
    assert!(!permissions.allows(EvidenceUse::Embedding));
}

#[test]
fn lookup_keys_normalize_unicode_and_case() {
    assert_eq!(normalize_lookup_key("  CAFE\u{301}  "), "café");
}

#[test]
fn language_tags_canonicalize_script_and_region_case() {
    assert_eq!(LanguageTag::parse("SR-latn-rs").unwrap().as_str(), "sr-Latn-RS");
    assert_eq!(LanguageTag::parse("EN").unwrap().as_str(), "en");
    assert!(LanguageTag::parse("e").is_err());
    assert!(LanguageTag::parse("en--US").is_err());
}

#[test]
fn canonical_id_keeps_trimmed_text_and_reparses_to_itself() {
    let id = CanonicalId::new("  sense-1\t").unwrap();
    assert_eq!(id.as_str(), "sense-1");
    assert_eq!(CanonicalId::new(id.as_str()), Ok(id.clone()));
    assert_eq!(
        CanonicalId::new(" \u{3000}\n").unwrap_err(),
        CanonicalValidationError::BlankIdentifier
    );
}
