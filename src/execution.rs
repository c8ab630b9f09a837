//! Reading the state of a workflow execution.

use vstd::prelude::*;

verus! {

/// The status of a workflow execution.
#[derive(Debug, Clone, Copy, PartialEq, Eq, Structural)]
pub enum ExecutionStatus {
    Aborted,
    Failed,
    PendingRedrive,
    Running,
    Succeeded,
    TimedOut,
    Unknown,
}

/// The output of an execution that has reached `expected`: its output text,
/// empty where it has none. `Err(())` while it stands elsewhere.
pub fn output_if_status(
    status: ExecutionStatus,
    expected: ExecutionStatus,
    output: Option<String>,
) -> (r: Result<String, ()>)
    ensures
        status != expected <==> r is Err,
        status == expected ==> r->Ok_0@ == (match output {
            Some(o) => o@,
            None => Seq::empty(),
        }),
{
    if status == expected {
        match output {
            Some(o) => Ok(o),
            None => Ok(String::new()),
        }
    } else {
        Err(())
    }
}

} // verus!
