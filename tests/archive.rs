use event_driven_flow::archive::{plan_archive, EventDetail};
use event_driven_flow::error::HandlerError;

fn detail() -> EventDetail {
    EventDetail { id: "\"42\"".to_string(), message: "\"api function says hello\"".to_string() }
}

#[test]
fn plans_item_then_notice() {
    let plan = plan_archive(Some("api-function".to_string()), Some(detail())).unwrap();
    assert_eq!(plan.item.id, "\"42\"");
    assert_eq!(plan.item.source, "api-function");
    assert_eq!(plan.item.message, "\"api function says hello\"");
    assert_eq!(plan.notice.message, "eventbridge function says hello");
    assert_eq!(plan.notice.id, "\"42\"");
    assert_eq!(plan.notice.id_data_type, "String");
}

#[test]
fn missing_source_is_an_error() {
    let err = plan_archive(None, Some(detail())).unwrap_err();
    assert_eq!(err, HandlerError::MissingField("source".to_string()));
}

#[test]
fn missing_detail_is_an_error() {
    let err = plan_archive(Some("api-function".to_string()), None).unwrap_err();
    assert_eq!(err, HandlerError::MissingField("detail".to_string()));
}

#[test]
fn source_is_checked_before_detail() {
    let err = plan_archive(None, None).unwrap_err();
    assert_eq!(err, HandlerError::MissingField("source".to_string()));
}
