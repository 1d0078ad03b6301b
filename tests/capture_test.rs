use xcap::cache::{ContentCache, StreamAction, StreamCacheSlot};
use xcap::capture::{
    capture_size, capture_with_cgwindowlist, frame_to_rgba, is_screencapturekit_available,
    pixel_buffer_to_rgba_image, target_display_id, wait_step, CaptureAction, CapturePhase,
    CaptureSession, CaptureTarget, Polled, PortableImage, WaitStep, PIXEL_FORMAT_32BGRA,
};
use xcap::error::XCapError;
use xcap::geometry::{DisplayRecord, Rect};
use xcap::window::ImplMonitor;

fn rect(x: i32, y: i32, width: u32, height: u32) -> Rect {
    Rect { x, y, width, height }
}

/// Two rows of two pixels, each row padded with four bytes.
fn padded_frame() -> Vec<u8> {
    vec![
        1, 2, 3, 4, 5, 6, 7, 8, 0xEE, 0xEE, 0xEE, 0xEE, 9, 10, 11, 12, 13, 14, 15, 16, 0xEE, 0xEE,
        0xEE, 0xEE,
    ]
}

const PADDED_RGBA: [u8; 16] = [3, 2, 1, 4, 7, 6, 5, 8, 11, 10, 9, 12, 15, 14, 13, 16];

#[test]
fn frame_with_padded_rows_is_converted_row_by_row() {
    let out = frame_to_rgba(&padded_frame(), 2, 2, 12).unwrap();
    assert_eq!(out, PADDED_RGBA.to_vec());
}

#[test]
fn frame_without_padding_is_converted_whole() {
    let data: Vec<u8> = (0u8..16).collect();
    let out = frame_to_rgba(&data, 2, 2, 8).unwrap();
    assert_eq!(out, vec![2, 1, 0, 3, 6, 5, 4, 7, 10, 9, 8, 11, 14, 13, 12, 15]);
}

#[test]
fn frame_that_does_not_fit_is_malformed() {
    assert_eq!(frame_to_rgba(&padded_frame(), 2, 3, 12), Err(XCapError::MalformedFrame));
    assert_eq!(frame_to_rgba(&padded_frame(), 4, 1, 12), Err(XCapError::MalformedFrame));
}

#[test]
fn pixel_buffer_becomes_image() {
    let frame = padded_frame();
    let img = pixel_buffer_to_rgba_image(PIXEL_FORMAT_32BGRA, 2, 2, 12, Some(&frame)).unwrap();
    assert_eq!(img.width(), 2);
    assert_eq!(img.height(), 2);
    assert_eq!(img.as_raw(), &PADDED_RGBA[..]);
    assert_eq!(img.into_raw().len(), 16);
}

#[test]
fn pixel_buffer_errors() {
    let frame = padded_frame();
    assert!(matches!(
        pixel_buffer_to_rgba_image(0x34323076, 2, 2, 12, Some(&frame)),
        Err(XCapError::UnsupportedPixelFormat)
    ));
    assert!(matches!(
        pixel_buffer_to_rgba_image(PIXEL_FORMAT_32BGRA, 2, 2, 12, None),
        Err(XCapError::NullBaseAddress)
    ));
    assert!(matches!(
        pixel_buffer_to_rgba_image(PIXEL_FORMAT_32BGRA, 2, 3, 12, Some(&frame)),
        Err(XCapError::MalformedFrame)
    ));
}

#[test]
fn legacy_capture_converts_rows() {
    let frame = padded_frame();
    let img = capture_with_cgwindowlist(2, 2, 12, Some(&frame)).unwrap();
    assert_eq!(img.as_raw(), &PADDED_RGBA[..]);
    assert!(matches!(capture_with_cgwindowlist(2, 2, 12, None), Err(XCapError::NullBaseAddress)));
}

#[test]
fn portable_image_needs_exact_length() {
    assert!(PortableImage::from_raw(2, 2, vec![0; 16]).is_some());
    assert!(PortableImage::from_raw(2, 2, vec![0; 15]).is_none());
    assert!(PortableImage::from_raw(2, 2, vec![0; 17]).is_none());
}

#[test]
fn streaming_capture_needs_macos_12_3() {
    assert!(is_screencapturekit_available(12, 3));
    assert!(is_screencapturekit_available(13, 0));
    assert!(!is_screencapturekit_available(12, 2));
    assert!(!is_screencapturekit_available(11, 9));
}

#[test]
fn wait_step_outcomes() {
    assert!(matches!(wait_step::<u8>(100, 500, Polled::Empty), WaitStep::Yield));
    assert!(matches!(wait_step(10, 500, Polled::Ready(7u8)), WaitStep::Done(7)));
    assert!(matches!(
        wait_step::<u8>(10, 500, Polled::Disconnected),
        WaitStep::Failed(XCapError::ChannelDisconnected)
    ));
    assert!(matches!(wait_step(500, 500, Polled::Ready(7u8)), WaitStep::Failed(XCapError::Timeout)));
}

#[test]
fn wait_on_silent_operation_times_out_at_deadline() {
    let readings: [u64; 6] = [0, 120, 260, 499, 503, 900];
    let mut stopped_at = None;
    for (i, t) in readings.iter().enumerate() {
        match wait_step::<()>(*t, 500, Polled::Empty) {
            WaitStep::Yield => {}
            WaitStep::Failed(e) => {
                assert_eq!(e, XCapError::Timeout);
                stopped_at = Some(i);
                break;
            }
            WaitStep::Done(_) => panic!("nothing was sent"),
        }
    }
    assert_eq!(stopped_at, Some(4));
}

fn target() -> CaptureTarget {
    CaptureTarget { rect: rect(10, 20, 300, 200), window_id: 0, list_option: 0, display_id: None }
}

#[test]
fn failed_streaming_capture_falls_back_to_legacy_with_same_target() {
    let mut s: CaptureSession<u32> = CaptureSession::new(target(), true);
    assert_eq!(s.next_action(), CaptureAction::RunModern(target()));
    s.record(Err(XCapError::Timeout));
    assert_eq!(s.next_action(), CaptureAction::RunLegacy(target()));
    s.record(Ok(77));
    assert_eq!(s.next_action(), CaptureAction::Finish);
    assert_eq!(s.finish(), Ok(77));
}

#[test]
fn successful_streaming_capture_finishes() {
    let mut s: CaptureSession<u32> = CaptureSession::new(target(), true);
    s.record(Ok(5));
    assert_eq!(s.phase, CapturePhase::Finished);
    assert_eq!(s.finish(), Ok(5));
}

#[test]
fn legacy_failure_is_surfaced() {
    let mut s: CaptureSession<u32> = CaptureSession::new(target(), false);
    assert_eq!(s.next_action(), CaptureAction::RunLegacy(target()));
    s.record(Err(XCapError::NullBaseAddress));
    assert_eq!(s.finish(), Err(XCapError::NullBaseAddress));
}

fn displays() -> Vec<DisplayRecord> {
    vec![
        DisplayRecord { id: 1, bounds: rect(0, 0, 1920, 1080) },
        DisplayRecord { id: 2, bounds: rect(1920, 0, 1920, 1080) },
    ]
}

#[test]
fn target_display_by_hint_or_rectangle() {
    let main = displays()[0];
    let mut t = target();
    t.rect = rect(2500, 100, 100, 100);
    assert_eq!(target_display_id(&t, &displays(), &main), 2);
    t.display_id = Some(9);
    assert_eq!(target_display_id(&t, &displays(), &main), 9);
    t.display_id = None;
    t.rect = rect(-5000, -5000, 10, 10);
    assert_eq!(target_display_id(&t, &displays(), &main), 1);
}

#[test]
fn first_listed_display_holding_or_overlapping_wins() {
    let main = displays()[0];
    let mut t = target();
    // Centre at x = 2020 on the second display, but the first, listed earlier, overlaps it.
    t.rect = rect(1820, 0, 400, 100);
    assert_eq!(target_display_id(&t, &displays(), &main), 1);
    let only_second = vec![displays()[1]];
    assert_eq!(target_display_id(&t, &only_second, &main), 2);
}

#[test]
fn capture_size_from_rect_or_display() {
    assert_eq!(capture_size(&rect(0, 0, 300, 200), &rect(0, 0, 1920, 1080)), (300, 200));
    assert_eq!(capture_size(&rect(0, 0, 0, 200), &rect(0, 0, 1920, 1080)), (1920, 1080));
}

#[test]
fn test_capture_region_out_of_bounds() {
    let monitor = ImplMonitor::new(1);
    let bounds = rect(0, 0, 1920, 1080);
    let x = bounds.width / 2;
    let y = bounds.height / 2;
    let result = monitor.capture_region_target(&bounds, x, y, bounds.width, bounds.height);
    match result {
        Err(XCapError::InvalidCaptureRegion) => (),
        _ => panic!("Expected InvalidCaptureRegion error"),
    }
}

#[test]
fn capture_region_inside_monitor() {
    let monitor = ImplMonitor::new(2);
    let t = monitor.capture_region_target(&rect(1920, 0, 1920, 1080), 10, 20, 100, 50).unwrap();
    assert_eq!(t.rect, rect(1930, 20, 100, 50));
    assert_eq!(t.display_id, Some(2));
    let whole = monitor.capture_target(&rect(1920, 0, 1920, 1080));
    assert_eq!(whole.rect, rect(1920, 0, 1920, 1080));
}

/// Drives the stream cache the way one capture call does and counts the
/// streams it creates and starts.
fn capture_once(slot: &mut StreamCacheSlot<u32>, next: &mut u32, d: u32, w: usize, h: usize, events: &mut (u32, u32)) -> u32 {
    if slot.next_stream_action(d, w, h) == StreamAction::Reuse {
        return *slot.reusable(d, w, h).unwrap();
    }
    *next += 1;
    slot.register(*next, d, w, h);
    events.0 += 1;
    slot.mark_started();
    events.1 += 1;
    *next
}

#[test]
fn stream_cache_reuses_started_stream() {
    let mut slot = StreamCacheSlot::new();
    let mut next = 0;
    let mut events = (0, 0);
    let a = capture_once(&mut slot, &mut next, 1, 1920, 1080, &mut events);
    let b = capture_once(&mut slot, &mut next, 1, 1920, 1080, &mut events);
    assert_eq!(a, b);
    assert_eq!(events, (1, 1));
    let c = capture_once(&mut slot, &mut next, 1, 800, 600, &mut events);
    assert_ne!(c, a);
    assert_eq!(events, (2, 2));
}

#[test]
fn stream_not_started_is_not_reused() {
    let mut slot = StreamCacheSlot::new();
    slot.register(3u32, 1, 10, 10);
    assert!(slot.reusable(1, 10, 10).is_none());
    assert_eq!(slot.next_stream_action(1, 10, 10), StreamAction::CreateAndStart);
    slot.mark_started();
    assert_eq!(slot.next_stream_action(1, 10, 10), StreamAction::Reuse);
    assert_eq!(slot.reusable(1, 10, 10), Some(&3));
    assert!(slot.reusable(2, 10, 10).is_none());
}

#[test]
fn content_cache_keyed_by_flag() {
    let mut cache = ContentCache::new();
    assert!(cache.get(false).is_none());
    cache.store("content", false);
    assert_eq!(cache.get(false), Some(&"content"));
    assert!(cache.get(true).is_none());
    cache.store("other", true);
    assert_eq!(cache.get(true), Some(&"other"));
    assert!(cache.get(false).is_none());
}
