//! The capture session: a start/grab/stop state machine composing the
//! bounded frame queue, the close signal and the staging-texture
//! lifecycle.
//!
//! Two execution contexts touch a session. The backend's own thread
//! delivers frame-arrival events (`on_frame_arrived`) and the one-shot
//! close signal (`on_close_signal`); the consumer calls `try_grab` and
//! `stop`. Neither side ever blocks here: every operation is a total
//! state transition. The blocking `grab` convenience is the embedding's
//! busy-wait loop over `try_grab`; it inherits the poll order below.
//!
//! `try_grab` polls the queue before the close signal, so a frame that
//! raced in just before the target was destroyed is still delivered,
//! never starved by the close signal.

use vstd::prelude::*;

use crate::error::CaptureError;
use crate::frame::Frame;
use crate::geometry::CaptureBox;
use crate::queue::{offer_result, PendingFrameQueue, RawFrame};
use crate::staging_texture::StagingTexture;

verus! {

/// Fixed capacity of the pending-frame queue.
pub const PENDING_FRAME_QUEUE_CAPACITY: usize = 32;

/// Where a session stands in its life cycle. `Stopped` is terminal.
#[derive(Clone, Copy, Debug, PartialEq, Eq, Structural)]
pub enum Phase {
    /// Built, but backend delivery has not begun.
    Created,
    /// Backend delivery is running.
    Started,
    /// Torn down; every later grab reports end of stream.
    Stopped,
}

/// The resolved source a session captures: a stable raw handle for
/// interop, and the subregion of the backend surface that covers the
/// target's current client area.
#[derive(Clone, Copy, Debug, PartialEq, Eq, Structural)]
pub struct CaptureTarget {
    /// The window or monitor handle, as a stable identity.
    pub raw_handle: isize,
    /// The target's current client region.
    pub region: CaptureBox,
}

/// The native size of the last raw frame a staging texture was
/// allocated for.
#[derive(Clone, Copy, Debug, PartialEq, Eq, Structural)]
pub struct ContentSize {
    pub width: u32,
    pub height: u32,
}

/// The outcome of one non-blocking grab.
#[derive(Clone, Copy, Debug, PartialEq, Eq, Structural)]
pub enum MaybeFrame {
    /// A frame was pending and is now staged.
    Frame(Frame),
    /// No frame is ready yet, but the session is still alive.
    Pending,
    /// End of stream: the session is stopped, or the target was
    /// destroyed. Never an error.
    Ended,
}

/// The session state, as contracts speak of it.
#[verifier::ext_equal]
pub ghost struct CaptureModel {
    pub phase: Phase,
    pub target: CaptureTarget,
    pub is_cursor_capture_enabled: bool,
    pub is_border_required: bool,
    pub cpu_access: bool,
    /// Pending frames, oldest first.
    pub pending: Seq<RawFrame>,
    pub queue_capacity: nat,
    /// Frames dropped by backpressure.
    pub dropped: nat,
    /// Whether the close signal has fired.
    pub close_signaled: bool,
    /// The subregion currently copied out of each raw frame.
    pub capture_box: CaptureBox,
    /// Native size the staging texture was last allocated for.
    pub content_size: Option<ContentSize>,
    /// The single live staging texture, if any.
    pub staging_texture: Option<StagingTexture>,
    /// How many staging textures the session has allocated.
    pub staging_reallocations: nat,
}

/// The session state a fresh capture starts in.
pub open spec fn spec_new_model(
    target: CaptureTarget,
    is_cursor_capture_enabled: bool,
    is_border_required: bool,
    cpu_access: bool,
) -> CaptureModel {
    CaptureModel {
        phase: Phase::Created,
        target,
        is_cursor_capture_enabled,
        is_border_required,
        cpu_access,
        pending: Seq::empty(),
        queue_capacity: PENDING_FRAME_QUEUE_CAPACITY as nat,
        dropped: 0,
        close_signaled: false,
        capture_box: target.region,
        content_size: None,
        staging_texture: None,
        staging_reallocations: 0,
    }
}

/// Starting is valid from `Created`; a repeated `start` is a no-op (the
/// consistent choice this library documents), and a stopped session
/// stays stopped.
pub open spec fn spec_start(m: CaptureModel) -> CaptureModel {
    if m.phase is Created {
        CaptureModel { phase: Phase::Started, ..m }
    } else {
        m
    }
}

/// Tearing down: the terminal state. The frame pool and capture
/// session are released by the embedding, the staging texture and the
/// pending frames are released here; the drop metric survives.
pub open spec fn spec_stop(m: CaptureModel) -> CaptureModel {
    CaptureModel {
        phase: Phase::Stopped,
        pending: Seq::empty(),
        content_size: None,
        staging_texture: None,
        ..m
    }
}

/// A frame-arrival event: a non-blocking enqueue attempt, dropping the
/// incoming frame when the queue is full. A stopped session ignores the
/// event silently — the producer racing with `stop` is not an error.
pub open spec fn spec_on_frame(m: CaptureModel, f: RawFrame) -> (CaptureModel, bool) {
    if m.phase is Stopped {
        (m, false)
    } else if m.pending.len() < m.queue_capacity {
        (CaptureModel { pending: m.pending.push(f), ..m }, true)
    } else {
        (CaptureModel { dropped: m.dropped + 1, ..m }, false)
    }
}

/// The close signal: a one-shot latch.
pub open spec fn spec_on_close(m: CaptureModel) -> CaptureModel {
    CaptureModel { close_signaled: true, ..m }
}

/// The target's client region was re-queried by the embedding.
pub open spec fn spec_update_target_region(m: CaptureModel, region: CaptureBox) -> CaptureModel {
    CaptureModel { target: CaptureTarget { region, ..m.target }, ..m }
}

/// Whether staging this raw frame needs a new staging texture: the
/// first frame, or a native size differing from the one the texture was
/// allocated for.
pub open spec fn spec_needs_resize(m: CaptureModel, f: RawFrame) -> bool {
    m.content_size != Some(ContentSize { width: f.width, height: f.height })
        || m.staging_texture is None
}

/// Staging the oldest pending frame. On a size change the frame pool is
/// recreated, the client region re-read from the target, and a staging
/// texture allocated to that region; in every case exactly the client
/// subregion is copied, so the exposed frame stays cropped to the
/// target's visible area.
pub open spec fn spec_grab_frame(m: CaptureModel) -> (CaptureModel, Frame)
    recommends
        m.pending.len() > 0,
{
    let f = m.pending[0];
    let resized = spec_needs_resize(m, f);
    let box_now = if resized {
        m.target.region
    } else {
        m.capture_box
    };
    let staging = if resized {
        StagingTexture::spec_new(
            (box_now.right - box_now.left) as u32,
            (box_now.bottom - box_now.top) as u32,
            f.format,
            m.cpu_access,
        )
    } else {
        m.staging_texture->0
    };
    let m1 = CaptureModel {
        pending: m.pending.drop_first(),
        capture_box: box_now,
        content_size: Some(ContentSize { width: f.width, height: f.height }),
        staging_texture: Some(staging),
        staging_reallocations: m.staging_reallocations + if resized {
            1nat
        } else {
            0nat
        },
        ..m
    };
    let frame = Frame {
        frame_id: f.id,
        texture: staging,
        region: box_now,
        cpu_access: m.cpu_access,
        reallocated: resized,
    };
    (m1, frame)
}

/// One non-blocking grab. A stopped session reports `Ended` and stays
/// put. Otherwise the queue is polled first: a pending frame is staged
/// and returned even when the close signal has already fired. Only on
/// an empty queue is the close signal consulted; if it fired, the
/// session stops and reports `Ended`, else the stream is merely
/// `Pending`. No branch returns an error: target destruction is the
/// normal end of the stream.
pub open spec fn spec_try_grab(m: CaptureModel) -> (CaptureModel, Result<
    MaybeFrame,
    CaptureError,
>) {
    if m.phase is Stopped {
        (m, Ok(MaybeFrame::Ended))
    } else if m.pending.len() > 0 {
        let (m1, frame) = spec_grab_frame(m);
        (m1, Ok(MaybeFrame::Frame(frame)))
    } else if m.close_signaled {
        (spec_stop(m), Ok(MaybeFrame::Ended))
    } else {
        (m, Ok(MaybeFrame::Pending))
    }
}

/// A capture session.
pub struct Capture {
    /// The resolved source, with its current client region.
    pub target: CaptureTarget,
    /// Whether the cursor is composed into captured frames.
    pub is_cursor_capture_enabled: bool,
    /// Whether the OS draws a capture border around the target.
    pub is_border_required: bool,
    /// Whether grabbed frames are CPU-mappable.
    pub cpu_access: bool,
    /// Where the session stands in its life cycle.
    pub phase: Phase,
    /// Frames delivered but not yet grabbed.
    pub queue: PendingFrameQueue,
    /// Whether the close signal has fired.
    pub close_signaled: bool,
    /// The subregion currently copied out of each raw frame.
    pub capture_box: CaptureBox,
    /// Native size the staging texture was last allocated for.
    pub content_size: Option<ContentSize>,
    /// The single live staging texture, if any.
    pub staging_texture: Option<StagingTexture>,
    /// How many staging textures the session has allocated.
    pub staging_reallocations: u64,
}

impl Capture {
    /// The session state, as contracts speak of it.
    pub open spec fn model(self) -> CaptureModel {
        CaptureModel {
            phase: self.phase,
            target: self.target,
            is_cursor_capture_enabled: self.is_cursor_capture_enabled,
            is_border_required: self.is_border_required,
            cpu_access: self.cpu_access,
            pending: self.queue.items@,
            queue_capacity: self.queue.capacity as nat,
            dropped: self.queue.dropped as nat,
            close_signaled: self.close_signaled,
            capture_box: self.capture_box,
            content_size: self.content_size,
            staging_texture: self.staging_texture,
            staging_reallocations: self.staging_reallocations as nat,
        }
    }

    /// The session invariant: the queue respects its capacity, the
    /// regions are well formed, and the staging texture — when one is
    /// live — is sized to the current capture box with the session's
    /// CPU-access setting.
    pub open spec fn wf(self) -> bool {
        &&& self.queue.wf()
        &&& self.target.region.wf()
        &&& self.capture_box.wf()
        &&& match self.staging_texture {
            Some(t) => self.content_size is Some && t.width == self.capture_box.spec_width()
                && t.height == self.capture_box.spec_height() && t.spec_cpu_accessible()
                == self.cpu_access,
            None => self.content_size is None,
        }
    }

    /// Compose a session around a resolved target. The session is
    /// `Created`: registration is done, delivery has not begun.
    pub fn new(
        target: CaptureTarget,
        is_cursor_capture_enabled: bool,
        is_border_required: bool,
        cpu_access: bool,
    ) -> (c: Self)
        requires
            target.region.wf(),
        ensures
            c.wf(),
            c.model() == spec_new_model(
                target,
                is_cursor_capture_enabled,
                is_border_required,
                cpu_access,
            ),
    {
        let c = Capture {
            target,
            is_cursor_capture_enabled,
            is_border_required,
            cpu_access,
            phase: Phase::Created,
            queue: PendingFrameQueue::new(PENDING_FRAME_QUEUE_CAPACITY),
            close_signaled: false,
            capture_box: target.region,
            content_size: None,
            staging_texture: None,
            staging_reallocations: 0,
        };
        proof {
            assert(c.model() =~= spec_new_model(
                target,
                is_cursor_capture_enabled,
                is_border_required,
                cpu_access,
            ));
        }
        c
    }

    /// Whether grabbed frames are CPU-mappable.
    pub fn has_cpu_access(&self) -> (r: bool)
        ensures
            r == self.cpu_access,
    {
        self.cpu_access
    }

    /// The attached target.
    pub fn capturable(&self) -> (t: &CaptureTarget)
        ensures
            t == self.target,
    {
        &self.target
    }

    /// Begin backend delivery. Valid from `Created`; calling it again
    /// is a no-op — the consistent choice this library documents.
    pub fn start(&mut self) -> (r: Result<(), CaptureError>)
        requires
            old(self).wf(),
        ensures
            final(self).wf(),
            final(self).model() == spec_start(old(self).model()),
            r is Ok,
    {
        if self.phase == Phase::Created {
            self.phase = Phase::Started;
        }
        Ok(())
    }

    /// The embedding re-read the target's client region (it does so
    /// when the OS reports the target's geometry changed); the next
    /// staging-texture allocation sizes to it.
    pub fn update_target_region(&mut self, region: CaptureBox)
        requires
            old(self).wf(),
            region.wf(),
        ensures
            final(self).wf(),
            final(self).model() == spec_update_target_region(old(self).model(), region),
    {
        self.target = CaptureTarget { raw_handle: self.target.raw_handle, region };
    }

    /// A frame-arrival event from the backend thread: a non-blocking
    /// enqueue attempt. Returns whether the frame was accepted; a full
    /// queue drops the incoming frame, a stopped session ignores the
    /// event silently.
    pub fn on_frame_arrived(&mut self, f: RawFrame) -> (accepted: bool)
        requires
            old(self).wf(),
            old(self).queue.dropped < u64::MAX,
        ensures
            final(self).wf(),
            (final(self).model(), accepted) == spec_on_frame(old(self).model(), f),
    {
        if self.phase == Phase::Stopped {
            return false;
        }
        let accepted = self.queue.offer(f);
        proof {
            assert(offer_result(old(self).queue.items@, old(self).queue.capacity as nat, f)
                == spec_on_frame(old(self).model(), f).0.pending);
            assert(final(self).model() =~= spec_on_frame(old(self).model(), f).0);
        }
        accepted
    }

    /// The close signal fired: the target was destroyed. One-shot and
    /// idempotent; observed by the next grab that finds the queue
    /// empty.
    pub fn on_close_signal(&mut self)
        requires
            old(self).wf(),
        ensures
            final(self).wf(),
            final(self).model() == spec_on_close(old(self).model()),
    {
        self.close_signaled = true;
    }

    /// Tear the session down: terminal, idempotent, never an error. The
    /// embedding releases the frame pool and capture session when this
    /// returns; the staging texture and pending frames are released
    /// here. Any grab from now on reports end of stream.
    pub fn stop(&mut self) -> (r: Result<(), CaptureError>)
        requires
            old(self).wf(),
        ensures
            final(self).wf(),
            final(self).model() == spec_stop(old(self).model()),
            r is Ok,
    {
        self.phase = Phase::Stopped;
        self.staging_texture = None;
        self.content_size = None;
        self.queue.clear();
        proof {
            assert(final(self).model() =~= spec_stop(old(self).model()));
        }
        Ok(())
    }

    /// One non-blocking grab: the queue is polled before the close
    /// signal, so a frame that raced in just before the target was
    /// destroyed is still delivered. On an empty queue a fired close
    /// signal stops the session and reports `Ended`; otherwise the
    /// stream is `Pending`. A stopped session always reports `Ended`.
    pub fn try_grab(&mut self) -> (r: Result<MaybeFrame, CaptureError>)
        requires
            old(self).wf(),
            old(self).staging_reallocations < u64::MAX,
        ensures
            final(self).wf(),
            (final(self).model(), r) == spec_try_grab(old(self).model()),
    {
        if self.phase == Phase::Stopped {
            return Ok(MaybeFrame::Ended);
        }
        let polled = self.queue.poll();
        match polled {
            Some(f) => {
                let resized = self.needs_resize(&f);
                let staging: StagingTexture;
                if resized {
                    self.capture_box = self.target.region;
                    let width = self.capture_box.width();
                    let height = self.capture_box.height();
                    staging = StagingTexture::new(width, height, f.format, self.cpu_access);
                    self.staging_texture = Some(staging);
                    self.staging_reallocations = self.staging_reallocations + 1;
                } else {
                    staging = match &self.staging_texture {
                        Some(t) => *t,
                        None => vstd::pervasive::unreached(),
                    };
                }
                self.content_size = Some(ContentSize { width: f.width, height: f.height });
                let frame = Frame {
                    frame_id: f.id,
                    texture: staging,
                    region: self.capture_box,
                    cpu_access: self.cpu_access,
                    reallocated: resized,
                };
                proof {
                    assert(final(self).model() =~= spec_grab_frame(old(self).model()).0);
                    assert(frame == spec_grab_frame(old(self).model()).1);
                }
                Ok(MaybeFrame::Frame(frame))
            },
            None => {
                if self.close_signaled {
                    let _ = self.stop();
                    proof {
                        assert(final(self).model() =~= spec_stop(old(self).model()));
                    }
                    Ok(MaybeFrame::Ended)
                } else {
                    proof {
                        assert(final(self).model() =~= old(self).model());
                    }
                    Ok(MaybeFrame::Pending)
                }
            },
        }
    }

    /// Whether staging this raw frame would allocate a new staging
    /// texture.
    pub fn needs_resize(&self, f: &RawFrame) -> (r: bool)
        ensures
            r == spec_needs_resize(self.model(), *f),
    {
        match self.content_size {
            None => true,
            Some(cs) => cs.width != f.width || cs.height != f.height
                || self.staging_texture.is_none(),
        }
    }
}

/// Builds a capture session over a resolved target, with cursor
/// capture off, the capture border on, and CPU access on unless
/// configured otherwise.
pub struct CaptureBuilder {
    pub capturable: CaptureTarget,
    pub is_cursor_capture_enabled: bool,
    pub is_border_required: bool,
    pub cpu_access: bool,
}

impl CaptureBuilder {
    /// Start from a resolved target with the default configuration.
    pub fn new(capturable: CaptureTarget) -> (b: Self)
        ensures
            b.capturable == capturable,
            !b.is_cursor_capture_enabled,
            b.is_border_required,
            b.cpu_access,
    {
        CaptureBuilder {
            capturable,
            is_cursor_capture_enabled: false,
            is_border_required: true,
            cpu_access: true,
        }
    }

    /// Choose whether the cursor is composed into captured frames.
    pub fn set_is_cursor_capture_enabled(self, val: bool) -> (b: Self)
        ensures
            b == (CaptureBuilder { is_cursor_capture_enabled: val, ..self }),
    {
        CaptureBuilder { is_cursor_capture_enabled: val, ..self }
    }

    /// Choose whether the OS draws a capture border around the target.
    pub fn set_is_border_required(self, val: bool) -> (b: Self)
        ensures
            b == (CaptureBuilder { is_border_required: val, ..self }),
    {
        CaptureBuilder { is_border_required: val, ..self }
    }

    /// Choose whether grabbed frames are CPU-mappable.
    pub fn set_cpu_access(self, val: bool) -> (b: Self)
        ensures
            b == (CaptureBuilder { cpu_access: val, ..self }),
    {
        CaptureBuilder { cpu_access: val, ..self }
    }

    /// Compose the session.
    pub fn build(self) -> (r: Result<Capture, CaptureError>)
        requires
            self.capturable.region.wf(),
        ensures
            r matches Ok(c) && c.wf() && c.model() == spec_new_model(
                self.capturable,
                self.is_cursor_capture_enabled,
                self.is_border_required,
                self.cpu_access,
            ),
    {
        Ok(
            Capture::new(
                self.capturable,
                self.is_cursor_capture_enabled,
                self.is_border_required,
                self.cpu_access,
            ),
        )
    }
}

/// `Stopped` is terminal: a grab on a stopped session reports end of
/// stream and leaves the session exactly as it was, so every subsequent
/// grab does the same.
pub proof fn lemma_stopped_is_terminal(m: CaptureModel)
    requires
        m.phase is Stopped,
    ensures
        spec_try_grab(m) == (m, Ok::<MaybeFrame, CaptureError>(MaybeFrame::Ended)),
{
}

/// Stopping a session, then stopping it again, is the same as stopping
/// it once: the second `stop` is a no-op.
pub proof fn lemma_stop_idempotent(m: CaptureModel)
    ensures
        spec_stop(spec_stop(m)) == spec_stop(m),
{
    assert(spec_stop(spec_stop(m)) =~= spec_stop(m));
}

/// After `stop`, a grab reports `Ended` and changes nothing — combined
/// with `lemma_stopped_is_terminal`, every subsequent grab reports
/// `Ended` without blocking.
pub proof fn lemma_grab_after_stop(m: CaptureModel)
    ensures
        spec_try_grab(spec_stop(m)) == (
            spec_stop(m),
            Ok::<MaybeFrame, CaptureError>(MaybeFrame::Ended),
        ),
{
}

/// The queue is polled before the close signal: as long as a frame is
/// pending, a grab delivers the oldest of them — even when the close
/// signal has already fired — so a frame that raced in just before the
/// target was destroyed is never starved.
pub proof fn lemma_pending_frame_beats_close(m: CaptureModel)
    requires
        !(m.phase is Stopped),
        m.pending.len() > 0,
    ensures
        spec_try_grab(m).1 matches Ok(MaybeFrame::Frame(f)) && f.frame_id == m.pending[0].id,
        spec_try_grab(m).0.pending == m.pending.drop_first(),
{
}

/// The close signal firing while the queue is empty makes the very
/// next grab report `Ended`, stopping the session — so, by
/// `lemma_stopped_is_terminal`, the report is `Ended` exactly from that
/// grab on, and the state no longer changes.
pub proof fn lemma_close_on_empty_queue_ends_stream(m: CaptureModel)
    requires
        !(m.phase is Stopped),
        m.pending.len() == 0,
    ensures
        spec_try_grab(spec_on_close(m)) == (
            spec_stop(spec_on_close(m)),
            Ok::<MaybeFrame, CaptureError>(MaybeFrame::Ended),
        ),
        spec_try_grab(spec_on_close(m)).0.phase is Stopped,
{
}

/// A grab that meets a new native size reallocates the staging texture
/// exactly once and reports the target's current client-region size:
/// the returned frame's texture is sized to the target's region as of
/// this grab.
pub proof fn lemma_resize_reallocates_once(m: CaptureModel)
    requires
        !(m.phase is Stopped),
        m.pending.len() > 0,
        spec_needs_resize(m, m.pending[0]),
    ensures
        ({
            let (m1, r) = spec_try_grab(m);
            &&& r matches Ok(MaybeFrame::Frame(f)) && f.reallocated && f.texture.width == (
            m.target.region.right - m.target.region.left) as u32 && f.texture.height == (
            m.target.region.bottom - m.target.region.top) as u32
            &&& m1.staging_reallocations == m.staging_reallocations + 1
        }),
{
}

/// A grab whose frame matches the size the staging texture was
/// allocated for reuses it: no reallocation happens and the count
/// stays. Together with `lemma_resize_reallocates_once`, one size
/// transition causes exactly one staging-texture reallocation.
pub proof fn lemma_same_size_does_not_reallocate(m: CaptureModel)
    requires
        !(m.phase is Stopped),
        m.pending.len() > 0,
        !spec_needs_resize(m, m.pending[0]),
    ensures
        ({
            let (m1, r) = spec_try_grab(m);
            &&& r matches Ok(MaybeFrame::Frame(f)) && !f.reallocated && Some(f.texture)
                == m.staging_texture
            &&& m1.staging_reallocations == m.staging_reallocations
            &&& m1.capture_box == m.capture_box
        }),
{
}

} // verus!
