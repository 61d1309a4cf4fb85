use capture_engine::frame::{CaptureSource, CapturedFrame, FrameFormat};
use capture_engine::hub::RecvOutcome;
use capture_engine::image_processing::ImageProcessingService;
use capture_engine::orchestrator::GraphicsCaptureService;
use capture_engine::processing::{
    DetectionPredicate, LatestSlot, LoopDirective, MinimapService, Service, SizeThresholdDetector,
};

fn raw_frame(width: u32, height: u32) -> CapturedFrame {
    CapturedFrame {
        data: vec![0x20; 4 * width as usize * height as usize],
        width,
        height,
        format: FrameFormat::Rgba8,
        timestamp_ms: 1,
        source: CaptureSource::WindowsGraphicsCapture,
    }
}

#[test]
fn latest_slot_is_last_write_wins() {
    let mut slot = LatestSlot::new();
    assert!(slot.latest().is_none());
    slot.publish(Some(vec![1, 2]));
    slot.publish(Some(vec![3, 4]));
    assert_eq!(slot.latest().unwrap(), vec![3, 4]);
    slot.publish(None);
    assert!(slot.latest().is_none());
}

#[test]
fn detection_threshold_is_640_by_360() {
    let det = SizeThresholdDetector {};
    assert!(det.detect(&raw_frame(640, 360)));
    assert!(!det.detect(&raw_frame(639, 360)));
    assert!(!det.detect(&raw_frame(640, 359)));
}

#[test]
fn processed_frame_lands_in_the_latest_slot() {
    let mut service = MinimapService::new();
    let det = SizeThresholdDetector {};
    let frame = raw_frame(64, 32);
    service.process_frame(&frame, &det, 1, 1, 2).unwrap();
    let latest = service.latest_frame().unwrap();
    // The slot holds the encoded bytes, not the raw pixels.
    assert_ne!(latest, frame.data);
    let (_, stats) = service.get_performance_metrics(&GraphicsCaptureService::new());
    assert_eq!(stats.frames_processed, 1);
    assert_eq!(stats.detections, 0);
}

#[test]
fn detections_are_counted() {
    let mut service = MinimapService::new();
    let det = SizeThresholdDetector {};
    service.process_frame(&raw_frame(800, 400), &det, 1, 1, 2).unwrap();
    service.process_frame(&raw_frame(100, 100), &det, 1, 1, 2).unwrap();
    let (_, stats) = service.get_performance_metrics(&GraphicsCaptureService::new());
    assert_eq!(stats.detections, 1);
    assert_eq!(stats.frames_processed, 2);
}

#[test]
fn empty_frame_is_dropped_and_counted_never_fatal() {
    let mut service = MinimapService::new();
    let det = SizeThresholdDetector {};
    let empty = CapturedFrame {
        data: Vec::new(),
        width: 0,
        height: 0,
        format: FrameFormat::Rgba8,
        timestamp_ms: 0,
        source: CaptureSource::WindowsGraphicsCapture,
    };
    assert!(service.process_frame(&empty, &det, 1, 1, 2).is_err());
    let (_, stats) = service.get_performance_metrics(&GraphicsCaptureService::new());
    assert_eq!(stats.frames_dropped, 1);
    assert_eq!(stats.frames_processed, 0);
    // The loop goes on after a per-frame failure.
    let dir = service.handle_recv(RecvOutcome::Frame(raw_frame(8, 8)), &det, 1, 1, 2);
    assert_eq!(dir, LoopDirective::Continue);
}

#[test]
fn lag_adds_skip_count_and_loop_continues() {
    let mut service = MinimapService::new();
    let det = SizeThresholdDetector {};
    let dir = service.handle_recv(RecvOutcome::Lagged(17), &det, 0, 0, 0);
    assert_eq!(dir, LoopDirective::Continue);
    let (_, stats) = service.get_performance_metrics(&GraphicsCaptureService::new());
    assert_eq!(stats.frames_dropped, 17);
}

#[test]
fn closed_stream_exits_the_loop() {
    let mut service = MinimapService::new();
    let det = SizeThresholdDetector {};
    assert_eq!(service.handle_recv(RecvOutcome::Closed, &det, 0, 0, 0), LoopDirective::Exit);
    assert_eq!(service.handle_recv(RecvOutcome::Empty, &det, 0, 0, 0), LoopDirective::Continue);
}

#[test]
fn start_without_subscription_is_refused() {
    let mut service = MinimapService::new();
    assert!(service.start_capture().is_err());
    assert!(!service.is_capturing());
}

#[test]
fn set_window_not_found_leaves_service_stopped() {
    let mut graphics = GraphicsCaptureService::new();
    let mut service = MinimapService::new();
    assert!(service.set_window(&mut graphics, "nowhere", false).is_err());
    assert!(!service.is_capturing());
    assert!(service.get_current_window_title().is_none());
    assert!(!graphics.is_capturing());
}

#[test]
fn stop_publishes_an_empty_latest_value() {
    let mut graphics = GraphicsCaptureService::new();
    let mut service = MinimapService::new();
    service.set_window(&mut graphics, "alpha", true).unwrap();
    let det = SizeThresholdDetector {};
    service.process_frame(&raw_frame(16, 16), &det, 1, 1, 2).unwrap();
    assert!(service.latest_frame().is_some());
    service.stop_capture(&mut graphics).unwrap();
    assert!(service.latest_frame().is_none());
}

#[test]
fn reset_metrics_zeroes_every_counter() {
    let mut service = MinimapService::new();
    let det = SizeThresholdDetector {};
    service.process_frame(&raw_frame(700, 400), &det, 1, 1, 2).unwrap();
    service.reset_metrics();
    let (_, stats) = service.get_performance_metrics(&GraphicsCaptureService::new());
    assert_eq!(stats.frames_processed, 0);
    assert_eq!(stats.detections, 0);
    assert_eq!(stats.frames_dropped, 0);
}

#[test]
fn service_trait_start_and_stop() {
    let mut graphics = GraphicsCaptureService::new();
    let mut service = MinimapService::new();
    service.set_window(&mut graphics, "alpha", true).unwrap();
    assert!(Service::stop(&mut service).is_ok());
    assert!(!service.is_capturing());
    // Start through the trait fails once the subscription is gone.
    assert!(Service::start(&mut service).is_err());
}

#[test]
fn image_processing_consumes_the_same_stream() {
    let mut graphics = GraphicsCaptureService::new();
    let mut aux = ImageProcessingService::new();
    aux.start_processing(&mut graphics).unwrap();
    // Starting twice is an idempotent no-op.
    aux.start_processing(&mut graphics).unwrap();

    let dir = aux.handle_recv(RecvOutcome::Frame(raw_frame(1920, 1080)), 2);
    assert_eq!(dir, LoopDirective::Continue);
    let dir = aux.handle_recv(RecvOutcome::Frame(raw_frame(640, 480)), 2);
    assert_eq!(dir, LoopDirective::Continue);
    let dir = aux.handle_recv(RecvOutcome::Lagged(4), 0);
    assert_eq!(dir, LoopDirective::Continue);
    let dir = aux.handle_recv(RecvOutcome::Closed, 0);
    assert_eq!(dir, LoopDirective::Exit);

    let stats = aux.get_metrics();
    assert_eq!(stats.frames_processed, 2);
    assert_eq!(stats.feature_detections, 1);
    assert_eq!(stats.frames_dropped, 4);

    aux.stop_processing(&mut graphics);
}
