//! Verified core of a screen-capture pipeline.
//!
//! The library models the event-driven frame-production path of an
//! OS screen-capture backend: a bounded backpressure queue between the
//! backend callback and the consumer, a start/grab/stop session state
//! machine, the staging-texture lifecycle that keeps the exposed frame
//! cropped to the target's client region, the window-capturability
//! filter, and the out-of-band close-signal routing that races against
//! normal frame delivery.
//!
//! All decisions are made here, on plain values, with verified
//! contracts. The operating-system work itself (device creation,
//! texture copies, window enumeration, event hooks) is performed by an
//! embedding layer that feeds its results into these functions as
//! events and carries their decisions back out as actions.

pub mod capture;
pub mod d3d;
pub mod display;
pub mod error;
pub mod frame;
pub mod geometry;
pub mod queue;
pub mod routing;
pub mod staging_texture;
pub mod util;
pub mod window;

use vstd::prelude::*;

verus! {

/// Process-wide platform preparation that the embedding performs once:
/// runtime initialization of the OS capture backend and the process
/// DPI-awareness setting. Both are idempotent latches.
pub struct Platform {
    /// Whether the backend runtime has been initialized.
    pub ro_initialized: bool,
    /// Whether the process has been marked DPI-aware.
    pub dpi_aware: bool,
}

/// The actions the embedding must now perform, as decided by `init`.
pub struct InitActions {
    /// Perform runtime initialization (only on the first `init`).
    pub do_ro_initialize: bool,
    /// Set the process DPI-awareness (requested on every `init`; the
    /// OS call itself is idempotent).
    pub do_set_dpi_aware: bool,
}

impl Platform {
    /// A fresh process: nothing initialized yet.
    pub fn new() -> (p: Self)
        ensures
            !p.ro_initialized,
            !p.dpi_aware,
    {
        Platform { ro_initialized: false, dpi_aware: false }
    }
}

/// Runtime initialization must happen exactly once per process: the
/// embedding performs it only when this returns true.
pub fn ro_initialize_once(p: &mut Platform) -> (do_init: bool)
    ensures
        do_init == !old(p).ro_initialized,
        final(p).ro_initialized,
        final(p).dpi_aware == old(p).dpi_aware,
{
    let first = !p.ro_initialized;
    p.ro_initialized = true;
    first
}

/// Prepare the process for capturing: initialize the backend runtime
/// once and request the DPI-awareness setting.
pub fn init(p: &mut Platform) -> (acts: InitActions)
    ensures
        acts.do_ro_initialize == !old(p).ro_initialized,
        acts.do_set_dpi_aware,
        final(p).ro_initialized,
        final(p).dpi_aware,
{
    let do_ro_initialize = ro_initialize_once(p);
    p.dpi_aware = true;
    InitActions { do_ro_initialize, do_set_dpi_aware: true }
}

} // verus!
