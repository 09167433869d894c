use transnet::provider::{
    chat_system_prompt, chat_user_prompt, read_translation, routes_to_long_text_provider, validate_request,
    TranslationError,
};
use transnet::resilience::ProviderAttemptError;
use transnet::types::TranslateRequest;

fn request(text: &str, source_lang: &str, target_lang: &str) -> TranslateRequest {
    TranslateRequest { text: text.to_string(), source_lang: source_lang.to_string(), target_lang: target_lang.to_string() }
}

#[test]
fn chat_prompts_carry_the_languages_and_the_text() {
    assert_eq!(chat_system_prompt(), "Translate accurately and return only the translated text.");
    let expected = ["Translate", " from en", " to zh-CN:\nhello"].concat();
    assert_eq!(chat_user_prompt(&request("hello", "en", "zh-CN")), expected);
}

#[test]
fn requests_are_validated_field_by_field() {
    assert_eq!(validate_request(&request("hello", "en", "zh-CN")), Ok(()));
    assert_eq!(
        validate_request(&request("  \t", "en", "zh-CN")),
        Err(TranslationError::Validation("text must not be blank".to_string()))
    );
    assert_eq!(
        validate_request(&request("hello", "en_US", "zh-CN")),
        Err(TranslationError::Validation("source_lang must be a BCP-47 language code".to_string()))
    );
    assert_eq!(
        validate_request(&request("hello", "en", "zh_CN")),
        Err(TranslationError::Validation("target_lang must be a BCP-47 language code".to_string()))
    );
    assert_eq!(TranslationError::Provider.message(), "translation provider unavailable");
}

#[test]
fn long_texts_route_by_character_count() {
    assert!(!routes_to_long_text_provider("héllo", 5));
    assert!(routes_to_long_text_provider("héllo!", 5));
    assert!(routes_to_long_text_provider("你好世界", 3));
}

#[test]
fn replies_are_trimmed_and_blank_replies_are_refused() {
    assert_eq!(read_translation(Some("  你好 \n")), Ok("你好".to_string()));
    assert_eq!(read_translation(Some("   ")), Err(ProviderAttemptError::InvalidEnvelope));
    assert_eq!(read_translation(None), Err(ProviderAttemptError::InvalidEnvelope));
}
