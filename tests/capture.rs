use fun_capture::capture::quartz::{
    FrameStatus, PixelFormat, QuartzCapture, QuartzFrame, StreamConfig, StreamOp, StreamOutcome,
    StreamRequest, SurfaceOp,
};
use fun_capture::capture::windows_dc::{
    BitmapHeader, BlitCopy, DcOp, DisplayContextCapture, BITMAP_HEADER_SIZE, BITS_PER_PIXEL,
};
use fun_capture::capture::{Capture, CaptureInitError, CaptureOpts, Frame};
use fun_capture::display::{Display, MonitorInfo, MONITOR_PRIMARY_FLAG};

fn display(width: i32, height: i32) -> Display {
    Display::new(
        MonitorInfo { left: 0, top: 0, right: width, bottom: height, flags: MONITOR_PRIMARY_FLAG },
        1,
    )
}

fn started() -> QuartzCapture {
    QuartzCapture::new(&CaptureOpts::new(display(1920, 1080)), StreamOutcome::Started).unwrap()
}

#[test]
fn options_defaults() {
    let d = display(800, 600);
    let o = CaptureOpts::new(d);
    assert!(o.cursor);
    assert_eq!(o.display, d);
    assert_eq!(o.frame_rate, 0);
    assert_eq!(o.frame_queue, 3);
}

#[test]
fn options_chain() {
    let mut o = CaptureOpts::new(display(800, 600));
    o.cursor(false).frame_rate(60).frame_queue(8);
    assert!(!o.cursor);
    assert_eq!(o.frame_rate, 60);
    assert_eq!(o.frame_queue, 8);
}

#[test]
fn config_uncapped_rate() {
    let o = CaptureOpts::new(display(800, 600));
    assert_eq!(
        QuartzCapture::build_config(&o),
        StreamConfig {
            show_cursor: true,
            preserve_aspect_ratio: false,
            minimum_frame_time_nanos: 0,
            queue_depth: 3,
        }
    );
}

#[test]
fn config_rate_ceiling() {
    let mut o = CaptureOpts::new(display(800, 600));
    o.frame_rate(60).cursor(false).frame_queue(5);
    let c = QuartzCapture::build_config(&o);
    assert_eq!(c.minimum_frame_time_nanos, 16_666_666);
    assert!(!c.show_cursor);
    assert_eq!(c.queue_depth, 5);
    o.frame_rate(1);
    assert_eq!(QuartzCapture::build_config(&o).minimum_frame_time_nanos, 1_000_000_000);
}

#[test]
fn open_not_created_is_error_and_releases_queue() {
    let outcome = StreamOutcome::NotCreated { os_error: 22 };
    assert_eq!(QuartzCapture::new(&CaptureOpts::new(display(800, 600)), outcome).unwrap_err(), CaptureInitError { code: 22 });
    assert_eq!(QuartzCapture::open_cleanup(outcome), vec![StreamOp::ReleaseQueue]);
}

#[test]
fn open_start_failed_is_error_and_releases_stream_and_queue() {
    let outcome = StreamOutcome::StartFailed { status: 1001 };
    assert_eq!(QuartzCapture::new(&CaptureOpts::new(display(800, 600)), outcome).unwrap_err(), CaptureInitError { code: 1001 });
    assert_eq!(
        QuartzCapture::open_cleanup(outcome),
        vec![StreamOp::ReleaseStream, StreamOp::ReleaseQueue]
    );
}

#[test]
fn open_started_releases_nothing() {
    assert!(QuartzCapture::open_cleanup(StreamOutcome::Started).is_empty());
    let mut c = started();
    assert!(matches!(c.frame(), Frame::Blocking));
}

#[test]
fn poll_without_delivery_is_blocking() {
    let mut c = started();
    assert!(matches!(c.frame(), Frame::Blocking));
    assert!(matches!(c.frame(), Frame::Blocking));
}

#[test]
fn latest_wins_over_three_deliveries() {
    let mut c = started();
    assert_eq!(c.on_frame(FrameStatus::FrameComplete, 10), vec![SurfaceOp::Retain(10)]);
    assert_eq!(
        c.on_frame(FrameStatus::FrameComplete, 11),
        vec![SurfaceOp::Retain(11), SurfaceOp::Release(10)]
    );
    assert_eq!(
        c.on_frame(FrameStatus::FrameComplete, 12),
        vec![SurfaceOp::Retain(12), SurfaceOp::Release(11)]
    );
    match c.frame() {
        Frame::Ready(f) => {
            assert_eq!(f.surface(), 12);
            assert_eq!(f.byte_len(), 1920 * 1080 * 4);
        }
        Frame::Blocking => panic!("expected a frame"),
    }
    assert!(matches!(c.frame(), Frame::Blocking));
}

#[test]
fn incomplete_statuses_deliver_nothing() {
    let mut c = started();
    for status in [FrameStatus::FrameIdle, FrameStatus::FrameBlank, FrameStatus::Stopped] {
        assert!(c.on_frame(status, 4).is_empty());
    }
    assert!(matches!(c.frame(), Frame::Blocking));
}

#[test]
fn use_and_lock_counts_return_to_baseline() {
    let f = QuartzFrame::new(42, 16);
    assert_eq!(f.byte_len(), 16);
    let acquire = f.acquire_ops();
    assert_eq!(acquire, vec![SurfaceOp::IncrementUseCount(42), SurfaceOp::LockReadOnly(42)]);
    let release = f.release();
    assert_eq!(
        release,
        vec![
            SurfaceOp::UnlockReadOnly(42),
            SurfaceOp::DecrementUseCount(42),
            SurfaceOp::Release(42),
        ]
    );
    let mut uses = 0i32;
    let mut locks = 0i32;
    for op in acquire.iter().chain(release.iter()) {
        match op {
            SurfaceOp::IncrementUseCount(_) => uses += 1,
            SurfaceOp::DecrementUseCount(_) => uses -= 1,
            SurfaceOp::LockReadOnly(_) => locks += 1,
            SurfaceOp::UnlockReadOnly(_) => locks -= 1,
            _ => (),
        }
    }
    assert_eq!((uses, locks), (0, 0));
}

#[test]
fn teardown_releases_pending_surface_once() {
    let mut c = started();
    c.on_frame(FrameStatus::FrameComplete, 5);
    assert_eq!(
        c.teardown(),
        vec![
            StreamOp::StopStream,
            StreamOp::Surface(SurfaceOp::Release(5)),
            StreamOp::ReleaseStream,
            StreamOp::ReleaseQueue,
        ]
    );
    assert!(c.teardown().is_empty());
    assert!(c.on_frame(FrameStatus::FrameComplete, 6).is_empty());
    assert!(matches!(c.frame(), Frame::Blocking));
}

#[test]
fn teardown_without_pending_surface() {
    let mut c = started();
    assert_eq!(
        c.teardown(),
        vec![StreamOp::StopStream, StreamOp::ReleaseStream, StreamOp::ReleaseQueue]
    );
}

#[test]
fn blit_bitmap_header() {
    let o = CaptureOpts::new(display(1920, 1080));
    assert_eq!(
        DisplayContextCapture::create_bitmap(&o),
        BitmapHeader {
            size: BITMAP_HEADER_SIZE,
            width: 1920,
            height: 1080,
            planes: 1,
            bit_count: BITS_PER_PIXEL,
        }
    );
}

#[test]
fn blit_frame_is_ready_with_full_rectangle() {
    let d = Display::new(MonitorInfo { left: 1920, top: 0, right: 3200, bottom: 1024, flags: 0 }, 2);
    let mut c = DisplayContextCapture::new(CaptureOpts::new(d));
    let expected = BlitCopy {
        dest_x: 0,
        dest_y: 0,
        width: 1280,
        height: 1024,
        src_x: 1920,
        src_y: 0,
        byte_len: 1280 * 1024 * 4,
    };
    match c.frame() {
        Frame::Ready(copy) => assert_eq!(copy, expected),
        Frame::Blocking => panic!("expected a frame"),
    }
}

#[test]
fn blit_consecutive_frames_copy_the_same_region() {
    let mut c = DisplayContextCapture::new(CaptureOpts::new(display(640, 480)));
    let first = match c.frame() {
        Frame::Ready(copy) => copy,
        Frame::Blocking => panic!("expected a frame"),
    };
    let second = match c.frame() {
        Frame::Ready(copy) => copy,
        Frame::Blocking => panic!("expected a frame"),
    };
    assert_eq!(first, second);
    assert_eq!(c.frame_len(), 640 * 480 * 4);
}

#[test]
fn blit_frame_len_at_largest_extent() {
    let d = Display { handle: 1, x: 0, y: 0, width: 0x7fff_ffff, height: 0x7fff_ffff, kind: fun_capture::display::DisplayKind::Primary };
    let c = DisplayContextCapture::new(CaptureOpts::new(d));
    assert_eq!(c.frame_len(), 0x7fff_ffffu64 * 0x7fff_ffffu64 * 4);
}

#[test]
fn blit_teardown_once_in_order() {
    let mut c = DisplayContextCapture::new(CaptureOpts::new(display(640, 480)));
    assert_eq!(c.teardown(), vec![DcOp::SelectPrevious, DcOp::DeleteBitmap, DcOp::DeleteContext]);
    assert!(c.teardown().is_empty());
}

#[test]
fn every_count_returns_to_baseline_after_deliveries_and_one_frame() {
    let mut c = started();
    let mut ops: Vec<SurfaceOp> = Vec::new();
    for s in [100u64, 101, 102, 103, 104] {
        ops.extend(c.on_frame(FrameStatus::FrameComplete, s));
    }
    let frame = match c.frame() {
        Frame::Ready(f) => f,
        Frame::Blocking => panic!("expected a frame"),
    };
    assert_eq!(frame.surface(), 104);
    ops.extend(frame.acquire_ops());
    ops.extend(frame.release());
    for t in [100u64, 101, 102, 103, 104] {
        let mut counts = [0i32; 3];
        for op in &ops {
            match *op {
                SurfaceOp::Retain(s) if s == t => counts[0] += 1,
                SurfaceOp::Release(s) if s == t => counts[0] -= 1,
                SurfaceOp::IncrementUseCount(s) if s == t => counts[1] += 1,
                SurfaceOp::DecrementUseCount(s) if s == t => counts[1] -= 1,
                SurfaceOp::LockReadOnly(s) if s == t => counts[2] += 1,
                SurfaceOp::UnlockReadOnly(s) if s == t => counts[2] -= 1,
                _ => (),
            }
        }
        assert_eq!(counts, [0, 0, 0]);
    }
    assert!(matches!(c.frame(), Frame::Blocking));
}

#[test]
fn stream_request_for_display() {
    let d = Display::new(MonitorInfo { left: 0, top: 0, right: 2560, bottom: 1600, flags: 1 }, 69);
    let mut o = CaptureOpts::new(d);
    o.frame_rate(30).cursor(false);
    assert_eq!(
        QuartzCapture::build_request(&o),
        StreamRequest {
            display: 69,
            width: 2560,
            height: 1600,
            pixel_format: PixelFormat::Argb8888,
            config: StreamConfig {
                show_cursor: false,
                preserve_aspect_ratio: false,
                minimum_frame_time_nanos: 33_333_333,
                queue_depth: 3,
            },
        }
    );
}

#[test]
fn every_ready_stream_payload_is_four_bytes_per_pixel() {
    let mut c = QuartzCapture::new(&CaptureOpts::new(display(1280, 720)), StreamOutcome::Started)
        .unwrap();
    let mut ready = 0;
    for i in 0..1000u64 {
        if i % 7 == 0 {
            c.on_frame(FrameStatus::FrameComplete, 500 + i);
        }
        match c.frame() {
            Frame::Ready(f) => {
                assert_eq!(f.byte_len(), 1280 * 720 * 4);
                ready += 1;
                f.release();
            }
            Frame::Blocking => (),
        }
    }
    assert!(ready >= 1);
}
