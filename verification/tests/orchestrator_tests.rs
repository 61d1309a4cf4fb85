use capture_engine::engine::{AcquireOutcome, DxgiDesktopDuplication, DxgiError};
use capture_engine::frame::{CaptureSource, FrameFormat, ProcessingMethod};
use capture_engine::hub::RecvOutcome;
use capture_engine::orchestrator::{GraphicsCaptureService, LoopAction};
use capture_engine::processing::MinimapService;
use capture_engine::texture::Texture;

fn texture(width: u32, height: u32, row_pitch: u32, fill: u8) -> Texture {
    Texture {
        mapped: vec![fill; (height * row_pitch) as usize],
        width,
        height,
        row_pitch,
        gpu_default_usage: true,
        map_ok: true,
        timestamp_ms: 5,
    }
}

#[test]
fn rebinding_releases_the_previous_target_completely() {
    // set_target(A) immediately followed by set_target(B): the handle
    // counter returns to its pre-bind value before B's bind begins, and
    // the end state is bound to B alone.
    let mut graphics = GraphicsCaptureService::new();
    let pre_bind = graphics.resource_handles();
    let mut service = MinimapService::new();

    service.set_window(&mut graphics, "alpha", true).unwrap();
    assert_eq!(graphics.resource_handles(), 1);
    assert!(graphics.is_capturing());

    service.stop_capture(&mut graphics).unwrap();
    assert_eq!(graphics.resource_handles(), pre_bind);

    service.set_window(&mut graphics, "beta", true).unwrap();
    assert_eq!(graphics.resource_handles(), 1);
    let title = service.get_current_window_title().unwrap();
    assert_eq!(title, "beta");
}

#[test]
fn window_not_found_is_surfaced_and_changes_no_binding() {
    let mut graphics = GraphicsCaptureService::new();
    let r = graphics.start_window_capture("missing", false);
    assert!(r.is_err());
    assert!(!graphics.is_capturing());
    assert_eq!(graphics.resource_handles(), 0);
}

#[test]
fn delivered_frames_reach_every_subscriber_converted() {
    let mut graphics = GraphicsCaptureService::new();
    let mut sub = graphics.subscribe();
    // One BGRA pixel (blue=9, green=8, red=7, alpha=6).
    let data = vec![9u8, 8, 7, 6];
    graphics.deliver_frame(&data, 1, 1, 42, 3);
    match graphics.recv(&mut sub) {
        RecvOutcome::Frame(f) => {
            assert_eq!(f.data, vec![7, 8, 9, 6]);
            assert_eq!(f.format, FrameFormat::Rgba8);
            assert_eq!(f.timestamp_ms, 42);
            assert!(matches!(f.source, CaptureSource::WindowsGraphicsCapture));
        }
        other => panic!("expected the delivered frame, got {:?}", other),
    }
    let stats = graphics.get_metrics();
    assert_eq!(stats.frames_captured, 1);
    assert_eq!(stats.frames_dropped, 0);
    assert_eq!(stats.active_subscribers, 1);
}

#[test]
fn zero_subscriber_publish_counts_neither_captured_nor_dropped() {
    let mut graphics = GraphicsCaptureService::new();
    let data = vec![0u8, 0, 0, 0];
    graphics.deliver_frame(&data, 1, 1, 0, 1);
    let stats = graphics.get_metrics();
    assert_eq!(stats.frames_captured, 0);
    assert_eq!(stats.frames_dropped, 0);
    assert_eq!(stats.active_subscribers, 0);
}

#[test]
fn access_lost_recovery_never_counts_dropped_frames() {
    // Simulated AccessLost: the engine goes bound -> unbound ->
    // bound again, the hub and its subscribers never see a crash, and
    // frames_dropped does not move for the recovery itself.
    let mut graphics = GraphicsCaptureService::new();
    let mut sub = graphics.subscribe();
    graphics.start_dxgi_capture(Ok(())).unwrap();

    let action = graphics.dxgi_loop_step(AcquireOutcome::Frame(texture(2, 2, 8, 1)), 1);
    assert!(matches!(action, LoopAction::Published));

    let before = graphics.get_metrics();
    let action = graphics.dxgi_loop_step(AcquireOutcome::AccessLost, 1);
    assert!(matches!(action, LoopAction::Reinitialize));
    let after = graphics.get_metrics();
    assert_eq!(after.frames_dropped, before.frames_dropped);
    assert_eq!(after.frames_captured, before.frames_captured);

    graphics.reinitialize_dxgi(Ok(())).unwrap();
    let action = graphics.dxgi_loop_step(AcquireOutcome::Frame(texture(2, 2, 8, 2)), 1);
    assert!(matches!(action, LoopAction::Published));

    // The subscriber sees both frames, with only an absence during the
    // recovery window.
    assert!(matches!(graphics.recv(&mut sub), RecvOutcome::Frame(_)));
    assert!(matches!(graphics.recv(&mut sub), RecvOutcome::Frame(_)));
    assert!(matches!(graphics.recv(&mut sub), RecvOutcome::Empty));
}

#[test]
fn timeouts_and_empty_acquires_are_idle_not_errors() {
    let mut graphics = GraphicsCaptureService::new();
    graphics.start_dxgi_capture(Ok(())).unwrap();
    assert!(matches!(graphics.dxgi_loop_step(AcquireOutcome::TimedOut, 1), LoopAction::Idle));
    assert!(matches!(graphics.dxgi_loop_step(AcquireOutcome::NoFrame, 1), LoopAction::Idle));
    let stats = graphics.get_metrics();
    assert_eq!(stats.frames_captured, 0);
    assert_eq!(stats.frames_dropped, 0);
}

#[test]
fn unmappable_surface_drops_and_counts_one_frame() {
    let mut graphics = GraphicsCaptureService::new();
    graphics.start_dxgi_capture(Ok(())).unwrap();
    let mut bad = texture(2, 2, 8, 0);
    bad.map_ok = false;
    let action = graphics.dxgi_loop_step(AcquireOutcome::Frame(bad), 1);
    assert!(matches!(action, LoopAction::Dropped));
    assert_eq!(graphics.get_metrics().frames_dropped, 1);
}

#[test]
fn fatal_capture_errors_stop_the_loop_once() {
    let mut graphics = GraphicsCaptureService::new();
    graphics.start_dxgi_capture(Ok(())).unwrap();
    let action = graphics.dxgi_loop_step(
        AcquireOutcome::Failed(0x8876_0000, "device hung".to_string()),
        1,
    );
    assert!(matches!(action, LoopAction::Failed(DxgiError::WindowsError(..))));
}

#[test]
fn engine_state_machine_on_access_lost() {
    let mut engine = DxgiDesktopDuplication::new();
    assert!(!engine.is_active());
    // Capturing before initialization is an invalid call.
    assert!(matches!(
        engine.capture_frame(AcquireOutcome::NoFrame),
        Err(DxgiError::InvalidCall)
    ));
    engine.initialize_primary_output(Ok(())).unwrap();
    assert!(engine.is_active());
    assert!(matches!(
        engine.capture_frame(AcquireOutcome::AccessLost),
        Err(DxgiError::AccessLost)
    ));
    assert!(!engine.is_active());
    engine.initialize_primary_output(Ok(())).unwrap();
    assert!(engine.is_active());
    engine.reset();
    assert!(!engine.is_active());
}

#[test]
fn failed_session_creation_is_surfaced_once() {
    let mut graphics = GraphicsCaptureService::new();
    let r = graphics.start_dxgi_capture(Err(DxgiError::DuplicationError(
        "output busy".to_string(),
    )));
    assert!(r.is_err());
    assert!(!graphics.is_capturing());
    assert_eq!(graphics.resource_handles(), 0);
}

#[test]
fn gpu_toggle_switches_the_extraction_path() {
    let mut engine = DxgiDesktopDuplication::new();
    engine.initialize_primary_output(Ok(())).unwrap();
    let surface = texture(2, 2, 8, 1);
    let f = engine.extract_frame_data(&surface).unwrap();
    assert_eq!(f.processing_method, ProcessingMethod::GpuOptimized);
    engine.set_gpu_processing(false);
    let f = engine.extract_frame_data(&surface).unwrap();
    assert_eq!(f.processing_method, ProcessingMethod::CpuCopy);
    engine.set_gpu_processing(true);
    let f = engine.extract_frame_data(&surface).unwrap();
    assert_eq!(f.processing_method, ProcessingMethod::GpuOptimized);
}
