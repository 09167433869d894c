use transnet::ports::lookup_job::{LookupJobCapability, LookupJobCapabilityError, LookupJobOwner, LookupJobResult};

#[test]
fn redacts_owner_capability_and_result_debug_output() {
    let owner = LookupJobOwner::new("account-equality-token").unwrap();
    let capability = LookupJobCapability::parse("aB_1-23456789012345678901234567890").unwrap();
    let mut body = serde_json::Map::new();
    body.insert(
        "query".to_string(),
        serde_json::Value::String("private learner query".to_string()),
    );
    let result = LookupJobResult::new(serde_json::Value::Object(body));

    assert!(!owner.redacted_debug().contains("account-equality-token"));
    assert!(!capability.redacted_debug().contains(capability.as_str()));
    assert!(!result.redacted_debug().contains("private learner query"));
}

#[test]
fn rejects_short_or_non_url_safe_capabilities() {
    assert_eq!(
        LookupJobCapability::parse("short").err(),
        Some(LookupJobCapabilityError::InvalidFormat)
    );
    assert_eq!(
        LookupJobCapability::parse("aB_1-2345678901234567890123456789=").err(),
        Some(LookupJobCapabilityError::InvalidFormat)
    );
}
