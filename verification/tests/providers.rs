use marcia_assistant::models::provider::{FailureKind, Fetched};
use marcia_assistant::services::provider_service::{accepted, outcome};

#[test]
fn statuses_from_200_to_299_are_accepted() {
    assert!(accepted(200));
    assert!(accepted(201));
    assert!(accepted(204));
    assert!(accepted(299));
}

#[test]
fn statuses_outside_200_to_299_are_refused() {
    assert!(!accepted(100));
    assert!(!accepted(199));
    assert!(!accepted(300));
    assert!(!accepted(404));
    assert!(!accepted(500));
    assert!(!accepted(999));
}

#[test]
fn numbers_that_are_no_status_are_refused() {
    assert!(!accepted(0));
    assert!(!accepted(99));
    assert!(!accepted(1000));
    assert!(!accepted(u16::MAX));
}

#[test]
fn acceptance_agrees_with_the_range_for_every_number() {
    for status in 0..=u16::MAX {
        assert_eq!(accepted(status), (200..300).contains(&status));
    }
}

#[test]
fn an_attempt_is_judged_status_first() {
    assert_eq!(outcome(Fetched::<u8>::MissingCredential), Err(FailureKind::ConfigurationMissing));
    assert_eq!(outcome(Fetched::<u8>::Unreachable), Err(FailureKind::TransportFailure));
    assert_eq!(
        outcome(Fetched::Answered { status: 404, payload: Some(1u8) }),
        Err(FailureKind::UpstreamFailure)
    );
    assert_eq!(
        outcome(Fetched::<u8>::Answered { status: 404, payload: None }),
        Err(FailureKind::UpstreamFailure)
    );
    assert_eq!(
        outcome(Fetched::<u8>::Answered { status: 200, payload: None }),
        Err(FailureKind::DecodeFailure)
    );
    assert_eq!(outcome(Fetched::Answered { status: 200, payload: Some(7u8) }), Ok(7));
}
