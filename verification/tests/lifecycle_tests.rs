use capture_engine::lifecycle::{ServiceLifecycle, ServiceState};
use capture_engine::orchestrator::GraphicsCaptureService;
use capture_engine::processing::MinimapService;

#[test]
fn initial_state_is_stopped() {
    let l = ServiceLifecycle::new();
    assert_eq!(l.state(), ServiceState::Stopped);
}

#[test]
fn full_cycle_walks_the_four_states() {
    let mut l = ServiceLifecycle::new();
    assert!(l.begin_start());
    assert_eq!(l.state(), ServiceState::Starting);
    l.complete_start();
    assert_eq!(l.state(), ServiceState::Running);
    assert!(l.begin_stop());
    assert_eq!(l.state(), ServiceState::Stopping);
    l.complete_stop();
    assert_eq!(l.state(), ServiceState::Stopped);
}

#[test]
fn overlapping_stops_run_exactly_one_teardown() {
    // Two stop requests racing: the first claims the teardown, the
    // second observes the guard and changes nothing.
    let mut l = ServiceLifecycle::new();
    let _ = l.begin_start();
    l.complete_start();
    let first = l.begin_stop();
    let second = l.begin_stop();
    assert!(first);
    assert!(!second);
    assert_eq!(l.state(), ServiceState::Stopping);
    l.complete_stop();
    assert_eq!(l.state(), ServiceState::Stopped);
}

#[test]
fn begin_start_fails_while_running() {
    let mut l = ServiceLifecycle::new();
    assert!(l.begin_start());
    l.complete_start();
    assert!(!l.begin_start());
    assert_eq!(l.state(), ServiceState::Running);
}

#[test]
fn service_stop_is_idempotent() {
    let mut graphics = GraphicsCaptureService::new();
    let mut service = MinimapService::new();
    service.set_window(&mut graphics, "alpha", true).unwrap();
    assert!(service.is_capturing());
    service.stop_capture(&mut graphics).unwrap();
    assert!(!service.is_capturing());
    assert!(service.latest_frame().is_none());
    // A second stop succeeds and leaves everything stopped.
    service.stop_capture(&mut graphics).unwrap();
    assert!(!service.is_capturing());
    assert_eq!(graphics.resource_handles(), 0);
}

#[test]
fn reported_state_reconciles_with_orchestrator() {
    let mut graphics = GraphicsCaptureService::new();
    let mut service = MinimapService::new();
    assert_eq!(service.get_service_state(&graphics), ServiceState::Stopped);
    service.set_window(&mut graphics, "alpha", true).unwrap();
    assert_eq!(service.get_service_state(&graphics), ServiceState::Running);
    // If the orchestrator stops underneath, the service must not claim
    // to be running on its internal flags alone.
    graphics.stop_capture();
    assert_eq!(service.get_service_state(&graphics), ServiceState::Stopped);
}
