use transnet::ports::clock::{UtcTimestamp};
use transnet::ports::durable_job::{JobFailureCode, JobFailureCodeError, JobKind, JobKindError, JobSubmission};

#[test]
fn rejects_non_machine_job_labels() {
    assert_eq!(JobKind::new("Lookup"), Err(JobKindError::InvalidFormat));
    assert_eq!(
        JobFailureCode::new("provider unavailable"),
        Err(JobFailureCodeError::InvalidFormat)
    );
}

#[test]
fn accepts_versioned_job_submission() {
    let kind = JobKind::new("lookup.generate").unwrap();
    let job = JobSubmission::new(
        kind,
        vec![1, 2],
        3,
        UtcTimestamp::unix_epoch(),
        2,
    );

    assert_eq!(job.payload(), [1, 2].as_slice());
    assert_eq!(job.max_attempts(), 2);
}
