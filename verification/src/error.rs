use vstd::prelude::*;

use crate::context::TraceHandleId;

verus! {

/// Failure kinds surfaced by the wrapper operations. Each variant stands
/// for exactly one native failure mode; no variant wraps another error.
#[derive(Debug, Clone)]
pub enum Error {
    /// The native session allocation returned no handle.
    ContextCreation,
    /// The native trace registration signalled an error.
    TraceAdd,
    /// Removal was asked for a trace the session does not hold.
    TraceRemove(TraceHandleId),
    /// The trace path cannot be represented as a null-terminated byte string.
    InvalidTracePath,
    /// The asked-for structural region is absent from the event's layout.
    GetEventScope,
    /// The native value extraction set its side-channel error flag.
    InvalidValueForField,
    /// A field view was requested from an invalid handle.
    InvalidDefinition,
    /// The native clock returned the reserved "no timestamp" sentinel.
    InvalidTimestamp,
    /// The named field is absent from the resolved scope.
    UnknownField(String),
}

} // verus!
