use transnet::types::{is_language_code};

#[test]
fn test_language_code_accepts_common_bcp47_shapes() {
    for value in ["en", "zh-CN", "sr-Latn-RS"] {
        assert!(is_language_code(value), "expected {value} to be valid");
    }
}

#[test]
fn test_language_code_rejects_names_and_malformed_tags() {
    for value in ["", "e", "toolongtag", "zh_CN", "en--US", "en-*"] {
        assert!(!is_language_code(value), "expected {value} to be invalid");
    }
}
