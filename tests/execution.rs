use event_driven_flow::execution::{output_if_status, ExecutionStatus};

#[test]
fn succeeded_execution_gives_its_output() {
    let r = output_if_status(ExecutionStatus::Succeeded, ExecutionStatus::Succeeded, Some("true".to_string()));
    assert_eq!(r, Ok("true".to_string()));
    let r = output_if_status(ExecutionStatus::Succeeded, ExecutionStatus::Succeeded, Some("false".to_string()));
    assert_eq!(r, Ok("false".to_string()));
}

#[test]
fn failed_execution_without_output_gives_empty_text() {
    let r = output_if_status(ExecutionStatus::Failed, ExecutionStatus::Failed, None);
    assert_eq!(r, Ok("".to_string()));
}

#[test]
fn other_status_is_an_error() {
    let r = output_if_status(ExecutionStatus::Running, ExecutionStatus::Succeeded, Some("x".to_string()));
    assert_eq!(r, Err(()));
}
