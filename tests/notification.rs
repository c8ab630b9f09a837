use event_driven_flow::error::HandlerError;
use event_driven_flow::forward::{CallError, FailureCause};
use event_driven_flow::notification::{EndingWriter, NotificationRecord, StoreAction};

fn record(message: &str, id: Option<&str>) -> NotificationRecord {
    NotificationRecord { message: message.to_string(), id: id.map(|s| s.to_string()) }
}

fn failure() -> CallError {
    CallError { cause: FailureCause::Other, description: "no table".to_string() }
}

#[test]
fn missing_id_fails_with_missing_key() {
    let mut writer = EndingWriter::new(vec![record("hello", None)]);
    assert_eq!(
        writer.start(),
        StoreAction::Finish(Err(HandlerError::MissingKey("id".to_string())))
    );
}

#[test]
fn missing_id_on_a_later_record() {
    let mut writer = EndingWriter::new(vec![record("a", Some("1")), record("b", None)]);
    assert_eq!(writer.start(), StoreAction::Lookup("1".to_string()));
    assert_eq!(
        writer.on_lookup(Ok(true)),
        StoreAction::Update("1".to_string(), "a, and the sns function says good bye".to_string())
    );
    assert_eq!(
        writer.on_update(Ok(())),
        StoreAction::Finish(Err(HandlerError::MissingKey("id".to_string())))
    );
}

#[test]
fn writes_each_ending_in_order() {
    let mut writer = EndingWriter::new(vec![
        record("eventbridge function says hello", Some("\"x\"")),
        record("again", Some("y")),
    ]);
    assert_eq!(writer.start(), StoreAction::Lookup("\"x\"".to_string()));
    assert_eq!(
        writer.on_lookup(Ok(true)),
        StoreAction::Update(
            "\"x\"".to_string(),
            "eventbridge function says hello, and the sns function says good bye".to_string()
        )
    );
    assert_eq!(writer.on_update(Ok(())), StoreAction::Lookup("y".to_string()));
    assert_eq!(
        writer.on_lookup(Ok(true)),
        StoreAction::Update("y".to_string(), "again, and the sns function says good bye".to_string())
    );
    assert_eq!(writer.on_update(Ok(())), StoreAction::Finish(Ok(())));
}

#[test]
fn absent_item_ends_with_success() {
    let mut writer = EndingWriter::new(vec![record("a", Some("1")), record("b", None)]);
    assert_eq!(writer.start(), StoreAction::Lookup("1".to_string()));
    assert_eq!(writer.on_lookup(Ok(false)), StoreAction::Finish(Ok(())));
}

#[test]
fn lookup_failure_is_passed_on() {
    let mut writer = EndingWriter::new(vec![record("a", Some("1"))]);
    writer.start();
    assert_eq!(writer.on_lookup(Err(failure())), StoreAction::Finish(Err(HandlerError::Call(failure()))));
}

#[test]
fn update_failure_is_passed_on() {
    let mut writer = EndingWriter::new(vec![record("a", Some("1")), record("b", Some("2"))]);
    writer.start();
    writer.on_lookup(Ok(true));
    assert_eq!(writer.on_update(Err(failure())), StoreAction::Finish(Err(HandlerError::Call(failure()))));
}

#[test]
fn no_notifications_is_success() {
    let mut writer = EndingWriter::new(Vec::new());
    assert_eq!(writer.start(), StoreAction::Finish(Ok(())));
}
