//! Device-creation policy: which driver backends are tried, in what
//! order, and how their outcomes decide between success and failure.
//!
//! Device creation is the only operation that is ever retried, and only
//! across the fixed driver-preference list: hardware first, then the
//! software fallback. Any other failure is surfaced verbatim.

use vstd::prelude::*;

use crate::error::CaptureError;

verus! {

/// A driver backend the device can be created on.
#[derive(Clone, Copy, Debug, PartialEq, Eq, Structural)]
pub enum DriverKind {
    /// A hardware GPU driver.
    Hardware,
    /// The software rasterizer fallback.
    Warp,
}

/// What one creation attempt on one driver reported.
#[derive(Clone, Copy, Debug, PartialEq, Eq, Structural)]
pub enum DriverOutcome {
    /// The device was created.
    Created,
    /// This driver backend is not available on the machine; the next
    /// preference may be tried.
    Unsupported,
    /// The attempt failed with this result code; no further preference
    /// is tried.
    Failed(i32),
}

/// The fixed preference order of driver backends: hardware first, the
/// software fallback second.
pub fn driver_preferences() -> (prefs: Vec<DriverKind>)
    ensures
        prefs@ =~= seq![DriverKind::Hardware, DriverKind::Warp],
{
    let mut prefs: Vec<DriverKind> = Vec::new();
    prefs.push(DriverKind::Hardware);
    prefs.push(DriverKind::Warp);
    prefs
}

/// Decide device creation from the attempts made so far, one outcome
/// per tried preference, in preference order.
///
/// Returns the index of the first successful attempt, provided every
/// earlier attempt merely reported the backend unsupported. A hard
/// failure before any success is fatal and surfaced verbatim; a list
/// where every attempt reported unsupported means no driver backend is
/// available at all.
pub fn select_device(outcomes: &Vec<DriverOutcome>) -> (r: Result<usize, CaptureError>)
    ensures
        match r {
            Ok(i) => i < outcomes@.len() && outcomes@[i as int] is Created && (forall|j: int|
                0 <= j < i ==> outcomes@[j] is Unsupported),
            Err(e) => match e {
                CaptureError::BackendError(code) => exists|i: int|
                    0 <= i < outcomes@.len() && outcomes@[i] == DriverOutcome::Failed(code) && (
                    forall|j: int| 0 <= j < i ==> outcomes@[j] is Unsupported),
                CaptureError::DeviceCreationFailed => forall|i: int|
                    0 <= i < outcomes@.len() ==> outcomes@[i] is Unsupported,
                _ => false,
            },
        },
{
    let mut i: usize = 0;
    while i < outcomes.len()
        invariant
            i <= outcomes@.len(),
            forall|j: int| 0 <= j < i ==> outcomes@[j] is Unsupported,
        decreases outcomes@.len() - i,
    {
        match outcomes[i] {
            DriverOutcome::Created => {
                return Ok(i);
            },
            DriverOutcome::Unsupported => {},
            DriverOutcome::Failed(code) => {
                return Err(CaptureError::BackendError(code));
            },
        }
        i = i + 1;
    }
    Err(CaptureError::DeviceCreationFailed)
}

} // verus!
