use transnet::ports::public_id::{PublicId, PublicIdError};

#[test]
fn accepts_canonical_ulids() {
    let id = PublicId::parse("01ARZ3NDEKTSV4RRFFQ69G5FAV").unwrap();

    assert_eq!(id.as_str(), "01ARZ3NDEKTSV4RRFFQ69G5FAV");
}

#[test]
fn rejects_noncanonical_ulids() {
    assert_eq!(
        PublicId::parse("01arz3ndektsv4rrffq69g5fav"),
        Err(PublicIdError::InvalidFormat)
    );
}

#[test]
fn from_ulid_writes_five_bits_per_crockford_digit() {
    assert_eq!(PublicId::from_ulid(0).as_str(), "00000000000000000000000000");
    assert_eq!(
        PublicId::from_ulid(0x4141_4141_4141_4141_4141_4141_4141_4141).as_str(),
        "21850M2GA1850M2GA1850M2GA1"
    );
    assert_eq!(PublicId::from_ulid(u128::MAX).as_str(), "7ZZZZZZZZZZZZZZZZZZZZZZZZZ");
}
