//! Testable event-forwarding handlers: the decisions that serverless
//! handlers make between receiving a cloud event and calling a managed
//! service, written as verified functions and state machines over plain
//! values. The hosting runtime and the service clients stay outside.

pub mod archive;
pub mod error;
pub mod execution;
pub mod forward;
pub mod message;
pub mod notification;
