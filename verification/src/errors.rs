use vstd::prelude::*;

verus! {

/// Every failure that an operation of the core can report to its caller.
///
/// Errors are surfaced synchronously to the caller of the failing operation;
/// none of them is fatal to other instances.
#[derive(Clone, Copy, Debug, PartialEq, Eq, Structural)]
pub enum CoreError {
    /// Configuration bytes were malformed; the previously active
    /// configuration stays authoritative.
    ConfigParseError,
    /// A metric name was reused with a different metric kind.
    MetricKindMismatch,
    /// An instance id is already live.
    DuplicateId,
    /// No live instance has the given id.
    NotFound,
    /// A handle that was never issued, or was already resolved or timed out.
    UnknownHandle,
    /// The owning instance already has an outstanding side call.
    InstanceAlreadyPending,
}

} // verus!
