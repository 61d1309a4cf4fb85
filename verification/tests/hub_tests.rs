use capture_engine::frame::{CaptureSource, CapturedFrame, FrameFormat};
use capture_engine::hub::{FrameBroadcastHub, RecvOutcome};
use capture_engine::orchestrator::GraphicsCaptureService;

fn frame_tagged(tag: u8) -> CapturedFrame {
    CapturedFrame {
        data: vec![tag, tag, tag, 255],
        width: 1,
        height: 1,
        format: FrameFormat::Rgba8,
        timestamp_ms: tag as u64,
        source: CaptureSource::WindowsGraphicsCapture,
    }
}

#[test]
fn test_multiple_subscribers() {
    let mut service = GraphicsCaptureService::new();

    let sub1 = service.subscribe();
    let sub2 = service.subscribe();

    // Both subscribers start with no pending frames.
    assert!(service.get_metrics().frames_captured == 0);
    let mut s1 = sub1;
    let mut s2 = sub2;
    assert!(matches!(service.recv(&mut s1), RecvOutcome::Empty));
    assert!(matches!(service.recv(&mut s2), RecvOutcome::Empty));
}

#[test]
fn subscribers_before_publish_see_every_frame_in_order() {
    let mut hub = FrameBroadcastHub::new();
    let mut s1 = hub.subscribe();
    let mut s2 = hub.subscribe();
    for tag in 1..=5u8 {
        hub.publish(frame_tagged(tag));
    }
    for tag in 1..=5u8 {
        match hub.recv(&mut s1) {
            RecvOutcome::Frame(f) => assert_eq!(f.data[0], tag),
            other => panic!("expected a frame, got {:?}", other),
        }
    }
    assert!(matches!(hub.recv(&mut s1), RecvOutcome::Empty));
    for tag in 1..=5u8 {
        match hub.recv(&mut s2) {
            RecvOutcome::Frame(f) => assert_eq!(f.data[0], tag),
            other => panic!("expected a frame, got {:?}", other),
        }
    }
}

#[test]
fn stalled_subscriber_gets_exact_skip_count_then_oldest_retained() {
    let mut hub = FrameBroadcastHub::with_capacity(4);
    let mut slow = hub.subscribe();
    // 7 frames published while stalled, capacity 4: skip must be 3.
    for tag in 1..=7u8 {
        hub.publish(frame_tagged(tag));
    }
    match hub.recv(&mut slow) {
        RecvOutcome::Lagged(skip) => assert_eq!(skip, 3),
        other => panic!("expected a lag notification, got {:?}", other),
    }
    // The next successful receive is the oldest still-retained frame
    // (frame 4), not a new one out of thin air.
    match hub.recv(&mut slow) {
        RecvOutcome::Frame(f) => assert_eq!(f.data[0], 4),
        other => panic!("expected the oldest retained frame, got {:?}", other),
    }
}

#[test]
fn fast_and_stalled_subscribers_fan_out() {
    // Frames F1..F5 to a hub with two subscribers: S1 reads each frame
    // promptly and in order; S2 is delayed past the capacity, must see a
    // lag notice and then resume from the oldest retained frame, and the
    // active-subscriber count stays 2 throughout.
    let mut hub = FrameBroadcastHub::with_capacity(3);
    let mut s1 = hub.subscribe();
    let mut s2 = hub.subscribe();
    assert_eq!(hub.subscriber_count(), 2);
    for tag in 1..=5u8 {
        hub.publish(frame_tagged(tag));
        match hub.recv(&mut s1) {
            RecvOutcome::Frame(f) => assert_eq!(f.data[0], tag),
            other => panic!("expected a frame, got {:?}", other),
        }
        assert_eq!(hub.subscriber_count(), 2);
    }
    // S2 stalled through all five publishes; capacity 3 means 2 skipped.
    match hub.recv(&mut s2) {
        RecvOutcome::Lagged(skip) => assert_eq!(skip, 2),
        other => panic!("expected a lag notification, got {:?}", other),
    }
    for tag in 3..=5u8 {
        match hub.recv(&mut s2) {
            RecvOutcome::Frame(f) => assert_eq!(f.data[0], tag),
            other => panic!("expected a frame, got {:?}", other),
        }
    }
    assert!(matches!(hub.recv(&mut s2), RecvOutcome::Empty));
    assert_eq!(hub.subscriber_count(), 2);
}

#[test]
fn publish_with_zero_subscribers_succeeds() {
    let mut hub = FrameBroadcastHub::new();
    hub.publish(frame_tagged(1));
    assert_eq!(hub.publish_count(), 1);
    assert_eq!(hub.subscriber_count(), 0);
    // A later subscriber sees only frames published after it subscribed.
    let mut s = hub.subscribe();
    assert!(matches!(hub.recv(&mut s), RecvOutcome::Empty));
    hub.publish(frame_tagged(2));
    match hub.recv(&mut s) {
        RecvOutcome::Frame(f) => assert_eq!(f.data[0], 2),
        other => panic!("expected a frame, got {:?}", other),
    }
}

#[test]
fn closed_hub_drains_then_reports_closed() {
    let mut hub = FrameBroadcastHub::new();
    let mut s = hub.subscribe();
    hub.publish(frame_tagged(9));
    hub.close();
    match hub.recv(&mut s) {
        RecvOutcome::Frame(f) => assert_eq!(f.data[0], 9),
        other => panic!("expected the buffered frame, got {:?}", other),
    }
    assert!(matches!(hub.recv(&mut s), RecvOutcome::Closed));
}

#[test]
fn unsubscribe_drops_subscriber_count() {
    let mut hub = FrameBroadcastHub::new();
    let s1 = hub.subscribe();
    let _s2 = hub.subscribe();
    assert_eq!(hub.subscriber_count(), 2);
    hub.unsubscribe(s1);
    assert_eq!(hub.subscriber_count(), 1);
}

#[test]
fn pending_counts_unconsumed_frames() {
    let mut hub = FrameBroadcastHub::new();
    let mut s = hub.subscribe();
    assert_eq!(hub.pending(&s), 0);
    hub.publish(frame_tagged(1));
    hub.publish(frame_tagged(2));
    assert_eq!(hub.pending(&s), 2);
    let _ = hub.recv(&mut s);
    assert_eq!(hub.pending(&s), 1);
}
