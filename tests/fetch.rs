use poss_fetch::fetch::{FetchAction, FetchError, FetchEvent, FetchPhase, FetchState, Fetched};

const URL: &str = "https://example.org/plate.fits";

fn begin() -> FetchState {
    FetchState::start(URL.to_string())
}

#[test]
fn present_destination_is_not_fetched_again() {
    let (s, a) = begin().step(FetchEvent::DestinationChecked { is_file: true });
    assert!(matches!(a, FetchAction::Done(Ok(Fetched::AlreadyPresent))));
    assert_eq!(s.phase, FetchPhase::Finished);
    let (_, a) = s.step(FetchEvent::Responded { status: 200, content_length: None });
    assert!(matches!(a, FetchAction::Ignore));
}

#[test]
fn missing_plate_is_not_found() {
    let (s, a) = begin().step(FetchEvent::DestinationChecked { is_file: false });
    assert!(matches!(a, FetchAction::Request));
    let (s, a) = s.step(FetchEvent::Responded { status: 404, content_length: Some(10) });
    match a {
        FetchAction::Done(Err(e)) => assert_eq!(e, FetchError::NotFound(URL.to_string())),
        _ => panic!("expected NotFound"),
    }
    assert_eq!(s.phase, FetchPhase::Finished);
    let (_, a) = s.step(FetchEvent::ChunkWritten { len: 3 });
    assert!(matches!(a, FetchAction::Ignore));
}

#[test]
fn other_status_is_distinct_from_not_found() {
    let (s, _) = begin().step(FetchEvent::DestinationChecked { is_file: false });
    let (_, a) = s.step(FetchEvent::Responded { status: 500, content_length: None });
    match a {
        FetchAction::Done(Err(e)) => assert_eq!(e, FetchError::Status(500)),
        _ => panic!("expected Status"),
    }
}

#[test]
fn body_is_streamed_with_progress() {
    let (s, _) = begin().step(FetchEvent::DestinationChecked { is_file: false });
    let (s, a) = s.step(FetchEvent::Responded { status: 200, content_length: Some(100) });
    assert!(matches!(a, FetchAction::CreateAndStream));
    assert_eq!((s.received, s.total), (0, 100));
    let (s, a) = s.step(FetchEvent::ChunkWritten { len: 60 });
    assert!(matches!(a, FetchAction::Continue));
    let (s, _) = s.step(FetchEvent::ChunkWritten { len: 40 });
    assert_eq!(s.received, 100);
    let (s, a) = s.step(FetchEvent::StreamEnded);
    assert!(matches!(a, FetchAction::Done(Ok(Fetched::Downloaded))));
    assert_eq!(s.phase, FetchPhase::Finished);
}

#[test]
fn unknown_length_counts_as_zero_and_progress_saturates() {
    let (s, _) = begin().step(FetchEvent::DestinationChecked { is_file: false });
    let (s, _) = s.step(FetchEvent::Responded { status: 204, content_length: None });
    assert_eq!(s.total, 0);
    let (s, _) = s.step(FetchEvent::ChunkWritten { len: u64::MAX });
    let (s, _) = s.step(FetchEvent::ChunkWritten { len: 5 });
    assert_eq!(s.received, u64::MAX);
}

#[test]
fn failures_after_creation_discard_the_file() {
    let (s, _) = begin().step(FetchEvent::DestinationChecked { is_file: false });
    let (s, _) = s.step(FetchEvent::Responded { status: 200, content_length: None });
    let (_, a) = s.step(FetchEvent::StreamFailed("reset".to_string()));
    match a {
        FetchAction::DiscardAndFail(e) => assert_eq!(e, FetchError::Io("reset".to_string())),
        _ => panic!("expected DiscardAndFail"),
    }
}

#[test]
fn failures_before_creation_just_fail() {
    let (_, a) = begin().step(FetchEvent::DestinationFailed("denied".to_string()));
    assert!(matches!(a, FetchAction::Done(Err(FetchError::Io(_)))));
    let (s, _) = begin().step(FetchEvent::DestinationChecked { is_file: false });
    let (_, a) = s.step(FetchEvent::TransportFailed("dns".to_string()));
    assert!(matches!(a, FetchAction::Done(Err(FetchError::Io(_)))));
}
