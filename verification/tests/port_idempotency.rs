use transnet::ports::clock::UtcTimestamp;
use transnet::ports::idempotency::{IdempotencyKeyDigest, IdempotencyRequest, IdempotencyScope, RequestFingerprint};

#[test]
fn redacts_idempotency_debug_values() {
    let scope = IdempotencyScope::new("principal-hash:POST-v1-saves").unwrap();
    let request = IdempotencyRequest::new(
        scope,
        IdempotencyKeyDigest::new([1; 32]),
        RequestFingerprint::new([2; 32]),
        UtcTimestamp::unix_epoch(),
    );

    assert!(!request.redacted_debug().contains("principal-hash"));
}
