//! The failure taxonomy of the capture pipeline.

use vstd::prelude::*;

verus! {

/// What can go wrong while resolving a target or running a session.
///
/// Target destruction is deliberately not represented here: it is the
/// normal end-of-stream outcome, reported through the grab results,
/// never as an error.
#[derive(Clone, Copy, Debug, PartialEq, Eq, Structural)]
pub enum CaptureError {
    /// No window matches the query, or a display index is out of
    /// range. Surfaced immediately at construction time, never
    /// retried.
    TargetNotFound,
    /// No graphics driver backend was available after exhausting the
    /// fallback list. Fatal.
    DeviceCreationFailed,
    /// A failure from the capture backend or the GPU interface,
    /// carrying its result code verbatim. Never silently retried.
    BackendError(i32),
    /// An internal producer/consumer signaling failure. Unexpected and
    /// fatal.
    ChannelError,
}

} // verus!
