use zbl::capture::{
    Capture, CaptureBuilder, CaptureTarget, MaybeFrame, Phase, PENDING_FRAME_QUEUE_CAPACITY,
};
use zbl::geometry::CaptureBox;
use zbl::queue::RawFrame;

fn display_box(width: u32, height: u32) -> CaptureBox {
    CaptureBox { left: 0, top: 0, right: width, bottom: height, front: 0, back: 1 }
}

fn session(width: u32, height: u32) -> Capture {
    let target = CaptureTarget { raw_handle: 42, region: display_box(width, height) };
    let mut c = Capture::new(target, false, true, true);
    c.start().expect("start");
    c
}

fn raw(id: u64, width: u32, height: u32) -> RawFrame {
    RawFrame { id, width, height, format: 87 }
}

#[test]
fn grab_returns_pending_while_alive_and_empty() {
    let mut c = session(800, 600);
    assert!(matches!(c.try_grab(), Ok(MaybeFrame::Pending)));
    assert!(matches!(c.try_grab(), Ok(MaybeFrame::Pending)));
    assert_eq!(c.phase, Phase::Started);
}

#[test]
fn grab_stages_a_pending_frame() {
    let mut c = session(800, 600);
    assert!(c.on_frame_arrived(raw(1, 800, 600)));
    match c.try_grab() {
        Ok(MaybeFrame::Frame(f)) => {
            assert_eq!(f.frame_id, 1);
            assert_eq!(f.width(), 800);
            assert_eq!(f.height(), 600);
            assert!(f.cpu_access);
            assert!(f.reallocated);
            assert_eq!(f.region, display_box(800, 600));
        }
        other => panic!("expected a frame, got {:?}", other),
    }
    assert_eq!(c.staging_reallocations, 1);
}

#[test]
fn stop_is_terminal_and_idempotent() {
    let mut c = session(800, 600);
    c.on_frame_arrived(raw(1, 800, 600));
    c.stop().expect("stop");
    assert_eq!(c.phase, Phase::Stopped);
    assert!(c.staging_texture.is_none());
    for _ in 0..3 {
        assert!(matches!(c.try_grab(), Ok(MaybeFrame::Ended)));
    }
    c.stop().expect("second stop is a no-op");
    assert_eq!(c.phase, Phase::Stopped);
    assert!(matches!(c.try_grab(), Ok(MaybeFrame::Ended)));
}

#[test]
fn producer_is_silent_after_stop() {
    let mut c = session(800, 600);
    c.stop().expect("stop");
    assert!(!c.on_frame_arrived(raw(1, 800, 600)));
    assert!(c.queue.is_empty());
    assert_eq!(c.queue.dropped, 0);
}

#[test]
fn close_signal_on_empty_queue_ends_stream_once() {
    let mut c = session(800, 600);
    c.on_close_signal();
    assert!(matches!(c.try_grab(), Ok(MaybeFrame::Ended)));
    assert_eq!(c.phase, Phase::Stopped);
    assert!(matches!(c.try_grab(), Ok(MaybeFrame::Ended)));
    assert!(matches!(c.try_grab(), Ok(MaybeFrame::Ended)));
}

#[test]
fn frame_that_raced_in_before_close_is_not_starved() {
    let mut c = session(800, 600);
    assert!(c.on_frame_arrived(raw(5, 800, 600)));
    c.on_close_signal();
    match c.try_grab() {
        Ok(MaybeFrame::Frame(f)) => assert_eq!(f.frame_id, 5),
        other => panic!("expected the raced-in frame, got {:?}", other),
    }
    assert!(matches!(c.try_grab(), Ok(MaybeFrame::Ended)));
    assert_eq!(c.phase, Phase::Stopped);
}

#[test]
fn resize_reallocates_staging_exactly_once() {
    let mut c = session(800, 600);
    c.on_frame_arrived(raw(1, 800, 600));
    match c.try_grab() {
        Ok(MaybeFrame::Frame(f)) => {
            assert_eq!((f.width(), f.height()), (800, 600));
            assert!(f.reallocated);
        }
        other => panic!("expected a frame, got {:?}", other),
    }
    assert_eq!(c.staging_reallocations, 1);

    c.update_target_region(display_box(1024, 768));
    c.on_frame_arrived(raw(2, 1024, 768));
    match c.try_grab() {
        Ok(MaybeFrame::Frame(f)) => {
            assert_eq!((f.width(), f.height()), (1024, 768));
            assert!(f.reallocated);
        }
        other => panic!("expected a frame, got {:?}", other),
    }
    assert_eq!(c.staging_reallocations, 2);

    c.on_frame_arrived(raw(3, 1024, 768));
    match c.try_grab() {
        Ok(MaybeFrame::Frame(f)) => {
            assert_eq!((f.width(), f.height()), (1024, 768));
            assert!(!f.reallocated);
        }
        other => panic!("expected a frame, got {:?}", other),
    }
    assert_eq!(c.staging_reallocations, 2);
}

#[test]
fn session_applies_backpressure_at_fixed_capacity() {
    let mut c = session(800, 600);
    for id in 0..40u64 {
        let accepted = c.on_frame_arrived(raw(id, 800, 600));
        assert_eq!(accepted, (id as usize) < PENDING_FRAME_QUEUE_CAPACITY);
    }
    assert_eq!(c.queue.len(), PENDING_FRAME_QUEUE_CAPACITY);
    assert_eq!(c.queue.dropped, 8);
    for id in 0..PENDING_FRAME_QUEUE_CAPACITY as u64 {
        match c.try_grab() {
            Ok(MaybeFrame::Frame(f)) => assert_eq!(f.frame_id, id),
            other => panic!("expected frame {}, got {:?}", id, other),
        }
    }
    assert!(matches!(c.try_grab(), Ok(MaybeFrame::Pending)));
}

#[test]
fn repeated_start_is_a_no_op() {
    let mut c = session(800, 600);
    c.start().expect("second start");
    assert_eq!(c.phase, Phase::Started);
    c.stop().expect("stop");
    c.start().expect("start after stop");
    assert_eq!(c.phase, Phase::Stopped);
}

#[test]
fn builder_defaults_and_setters() {
    let target = CaptureTarget { raw_handle: 9, region: display_box(640, 480) };
    let b = CaptureBuilder::new(target);
    assert!(!b.is_cursor_capture_enabled);
    assert!(b.is_border_required);
    assert!(b.cpu_access);
    let c = CaptureBuilder::new(target)
        .set_is_cursor_capture_enabled(true)
        .set_is_border_required(false)
        .set_cpu_access(false)
        .build()
        .expect("build");
    assert!(c.is_cursor_capture_enabled);
    assert!(!c.is_border_required);
    assert!(!c.has_cpu_access());
    assert_eq!(c.capturable().raw_handle, 9);
    assert_eq!(c.phase, Phase::Created);
}

#[test]
fn gpu_only_session_stages_without_cpu_access() {
    let target = CaptureTarget { raw_handle: 1, region: display_box(320, 200) };
    let mut c = CaptureBuilder::new(target).set_cpu_access(false).build().expect("build");
    c.start().expect("start");
    c.on_frame_arrived(raw(1, 320, 200));
    match c.try_grab() {
        Ok(MaybeFrame::Frame(f)) => {
            assert!(!f.cpu_access);
            assert_eq!(f.texture.usage, zbl::staging_texture::TextureUsage::Gpu);
            assert_eq!(f.texture.cpu_access_flags, 0);
        }
        other => panic!("expected a frame, got {:?}", other),
    }
}
