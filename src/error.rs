//! Errors that end a handler's invocation.

use vstd::prelude::*;
use crate::forward::CallError;

verus! {

/// Why a handler's invocation failed.
#[derive(Debug, PartialEq, Eq)]
pub enum HandlerError {
    /// A call to an external service failed; passed on unchanged.
    Call(CallError),
    /// A lookup in a keyed collection of the event found no entry under this key.
    MissingKey(String),
    /// A field that the event must carry is absent.
    MissingField(String),
}

} // verus!
