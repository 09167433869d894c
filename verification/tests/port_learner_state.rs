use transnet::ports::clock::UtcTimestamp;
use ulid::Ulid;
use transnet::ports::clock::{Duration};
use transnet::ports::learner_state::{HistoryCursor, HistoryPageRequest, HistoryPageRequestError, SavedVocabularyPageRequest, SavedVocabularyPageRequestError};
use transnet::ports::public_id::{PublicId};




#[test]
fn private_pages_enforce_explicit_bounds() {
    let id = PublicId::from_ulid(Ulid::from_parts(1_700_000_000_000, 1).0);
    let cursor = HistoryCursor::new(UtcTimestamp::from_unix_seconds(1), id);

    assert!(HistoryPageRequest::new(Some(cursor), 100).is_ok());
    assert_eq!(
        HistoryPageRequest::new(None, 101),
        Err(HistoryPageRequestError::LimitTooLarge)
    );
    assert_eq!(
        SavedVocabularyPageRequest::new(None, 101, None),
        Err(SavedVocabularyPageRequestError::LimitTooLarge)
    );
}
