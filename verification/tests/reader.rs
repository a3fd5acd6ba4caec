use reading_features::common::clock::Timestamp;
use reading_features::common::error::AppError;
use reading_features::reader::reading_session::{check_session, SessionMode, READING_SESSION_LOGGED};
use reading_features::reader::use_cases::{library_item_found, AddBookmarkRequest, CreateHighlight, CreateHighlightRequest};
use reading_features::reader::end_session::{EndAction, EndEvent, EndSessionFlow, EndStage};

fn at(secs: i64, nanos: u32) -> Timestamp {
    Timestamp { secs, nanos }
}

fn message(r: Result<(), AppError>) -> String {
    match r {
        Err(AppError::UnprocessableEntity(m)) => m,
        other => panic!("expected refusal, got {:?}", other),
    }
}

#[test]
fn session_mode_names_round_trip() {
    for m in [SessionMode::Text, SessionMode::Tts] {
        assert_eq!(SessionMode::from_name(m.as_str()).unwrap(), m);
    }
    assert_eq!(SessionMode::from_name("audio").unwrap_err().message, "unknown session mode: audio");
    assert_eq!(READING_SESSION_LOGGED, "reading_session.logged");
}

#[test]
fn session_checks_in_order() {
    assert!(check_session(at(10, 0), at(10, 1), 0, false).is_ok());
    assert_eq!(message(check_session(at(10, 5), at(10, 5), 0, false)), "ended_at must be after started_at");
    assert_eq!(message(check_session(at(10, 5), at(9, 999), -1, true)), "ended_at must be after started_at");
    assert_eq!(message(check_session(at(10, 0), at(11, 0), -1, true)), "pages_read cannot be negative");
    assert_eq!(message(check_session(at(10, 0), at(11, 0), 3, true)), "minutes cannot be negative");
}

#[test]
fn missing_library_item_is_not_found() {
    assert_eq!(library_item_found(Some(4)).unwrap(), 4);
    match library_item_found::<u8>(None) {
        Err(AppError::NotFound(m)) => assert_eq!(m, "library item"),
        _ => panic!("expected not found"),
    }
}

#[test]
fn highlight_is_built_from_request() {
    let req = CreateHighlightRequest {
        color: "yellow".to_string(),
        locator_start: "a".to_string(),
        locator_end: "b".to_string(),
        selected_text: Some("text".to_string()),
    };
    let uc = CreateHighlight { repository: () };
    let h = uc.highlight_to_create(1, 2, req.into_input());
    assert_eq!(h.library_item_id, 1);
    assert_eq!(h.user_id, 2);
    assert_eq!(h.color, "yellow");
    assert!(h.note.is_none());
    let b = AddBookmarkRequest { locator: "l".to_string(), page: Some(3), label: None }.into_input();
    assert_eq!(b.page, Some(3));
}

fn flow(started: Timestamp, ended: Timestamp, pages: i32, minutes_negative: bool) -> EndSessionFlow {
    EndSessionFlow::new(7, 9, SessionMode::Tts, Some(3), started, ended, pages, minutes_negative)
}

#[test]
fn ending_a_session_logs_marks_and_announces() {
    let f = flow(at(100, 0), at(160, 0), 12, false);
    let (f, a) = f.step(EndEvent::Begin);
    assert!(matches!(a, EndAction::FindItem(7, 9)));
    let (f, a) = f.step(EndEvent::ItemLoaded(true));
    match a {
        EndAction::LogSession(s) => {
            assert_eq!((s.item_id, s.user_id, s.mode, s.voice_id, s.pages_read), (7, 9, SessionMode::Tts, Some(3), 12));
            assert_eq!((s.started_at, s.ended_at), (at(100, 0), at(160, 0)));
        }
        other => panic!("unexpected {:?}", other),
    }
    let (f, a) = f.step(EndEvent::SessionLogged(42));
    assert!(matches!(a, EndAction::UpdateLastRead(7, 9)));
    let (f, a) = f.step(EndEvent::LastReadUpdated);
    assert!(matches!(a, EndAction::Publish(9, 7, 12, SessionMode::Tts)));
    let (f, a) = f.step(EndEvent::PublishDone);
    assert!(matches!(a, EndAction::Respond(Ok(42))));
    assert!(matches!(f.stage, EndStage::Finished));
}

#[test]
fn ending_a_session_on_a_missing_item_is_not_found() {
    let (f, _) = flow(at(100, 0), at(160, 0), 12, false).step(EndEvent::Begin);
    match f.step(EndEvent::ItemLoaded(false)).1 {
        EndAction::Respond(Err(AppError::NotFound(m))) => assert_eq!(m, "library item"),
        other => panic!("unexpected {:?}", other),
    }
}

#[test]
fn ending_a_refused_session_writes_nothing() {
    let (f, _) = flow(at(100, 0), at(100, 0), 12, false).step(EndEvent::Begin);
    match f.step(EndEvent::ItemLoaded(true)).1 {
        EndAction::Respond(Err(AppError::UnprocessableEntity(m))) => assert_eq!(m, "ended_at must be after started_at"),
        other => panic!("unexpected {:?}", other),
    }
    let (f, _) = flow(at(100, 0), at(200, 0), 1, true).step(EndEvent::Begin);
    match f.step(EndEvent::ItemLoaded(true)).1 {
        EndAction::Respond(Err(AppError::UnprocessableEntity(m))) => assert_eq!(m, "minutes cannot be negative"),
        other => panic!("unexpected {:?}", other),
    }
}
