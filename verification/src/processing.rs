//! The frame-processing service: it subscribes to the broadcast hub, runs
//! a detection predicate and the encode step on each received frame, and
//! republishes only the most recent result to a single-slot latest-value
//! channel. Its lifecycle is the shared state machine, so concurrent
//! start/stop/set-target requests serialize through explicit transitions.
//!
//! The asynchronous shell owns the loop itself (receive, wait, repeat);
//! each decision the loop takes — what a lag does, when it exits, what a
//! frame becomes — is a verified step here.

use vstd::prelude::*;

use crate::codec::{EncodeError, encode_frame, spec_encodable, spec_encoded_bytes};
use crate::frame::{CapturedFrame, FrameModel};
use crate::hub::{HubSubscriber, RecvOutcome};
use crate::lifecycle::{ServiceLifecycle, ServiceState};
use crate::metrics::{CaptureStats, MinimapMetrics, MinimapStats, sat_add};
use crate::orchestrator::{BindingModel, GraphicsCaptureService, bind_push, teardown};

verus! {

/// The single-slot "latest value" channel for display consumers: a new
/// publish overwrites any unread previous value; the most recent publish
/// wins and nothing is queued.
pub struct LatestSlot {
    value: Option<Vec<u8>>,
}

impl LatestSlot {
    pub closed spec fn spec_value(self) -> Option<Seq<u8>> {
        match self.value {
            Some(v) => Some(v@),
            None => None,
        }
    }

    pub fn new() -> (r: Self)
        ensures
            r.spec_value() is None,
    {
        LatestSlot { value: None }
    }

    /// Last write wins: the slot now holds exactly this value.
    pub fn publish(&mut self, value: Option<Vec<u8>>)
        ensures
            final(self).spec_value() == match value {
                Some(v) => Some::<Seq<u8>>(v@),
                None => None::<Seq<u8>>,
            },
    {
        self.value = value;
    }

    /// The most recently published value, if any.
    pub fn latest(&self) -> (r: Option<Vec<u8>>)
        ensures
            match r {
                Some(v) => self.spec_value() == Some(v@),
                None => self.spec_value() is None,
            },
    {
        match &self.value {
            Some(v) => Some(v.clone()),
            None => None,
        }
    }
}

/// The abstract detection predicate the processing service runs per
/// frame: a boolean function of the frame's dimensions and content whose
/// result is counted. The concrete algorithm is a pluggable concern; any
/// implementation must be bounded and non-blocking relative to the frame
/// cadence.
pub trait DetectionPredicate {
    spec fn spec_detect(&self, m: FrameModel) -> bool;

    fn detect(&self, frame: &CapturedFrame) -> (r: bool)
        ensures
            r == self.spec_detect(frame@),
    ;
}

/// The stand-in predicate: a frame at least 640 x 360 counts as a
/// detection. A placeholder for a real detector, kept behind the
/// [`DetectionPredicate`] capability so it can be swapped out.
pub struct SizeThresholdDetector {
}

impl DetectionPredicate for SizeThresholdDetector {
    open spec fn spec_detect(&self, m: FrameModel) -> bool {
        m.width >= 640 && m.height >= 360
    }

    fn detect(&self, frame: &CapturedFrame) -> (r: bool)
        ensures
            r == self.spec_detect(frame@),
    {
        frame.width >= 640 && frame.height >= 360
    }
}

/// What the processing loop does after one receive step.
#[derive(Clone, Copy, Debug, PartialEq, Eq, Structural)]
pub enum LoopDirective {
    /// Keep receiving at the normal cadence.
    Continue,
    /// The hub closed: the loop exits.
    Exit,
}

/// The minimap processing service. Owns one latest-value slot and at most
/// one live hub subscription, whose lifetime is bounded by the running
/// state.
pub struct MinimapService {
    current_window_title: Option<String>,
    subscription: Option<HubSubscriber>,
    latest: LatestSlot,
    lifecycle: ServiceLifecycle,
    metrics: MinimapMetrics,
}

impl MinimapService {
    pub closed spec fn spec_state(self) -> ServiceState {
        self.lifecycle.spec_state()
    }

    pub closed spec fn spec_title(self) -> Option<Seq<char>> {
        match self.current_window_title {
            Some(t) => Some(t@),
            None => None,
        }
    }

    pub closed spec fn has_subscription(self) -> bool {
        self.subscription is Some
    }

    pub closed spec fn spec_cursor(self) -> int {
        self.subscription.unwrap().cursor as int
    }

    pub closed spec fn spec_latest(self) -> Option<Seq<u8>> {
        self.latest.spec_value()
    }

    pub closed spec fn spec_metrics(self) -> MinimapMetrics {
        self.metrics
    }

    /// The service's subscription, if any, is a valid receiver of the
    /// given orchestrator's hub.
    pub open spec fn compatible_with(self, graphics: GraphicsCaptureService) -> bool {
        &&& graphics.wf()
        &&& (self.has_subscription() ==> self.spec_cursor() <= graphics.hub_published()
            && graphics.hub_subscribers() >= 1)
    }

    pub fn new() -> (r: Self)
        ensures
            r.spec_state() == ServiceState::Stopped,
            r.spec_title() is None,
            !r.has_subscription(),
            r.spec_latest() is None,
            r.spec_metrics() == MinimapMetrics::zeroed(),
    {
        MinimapService {
            current_window_title: None,
            subscription: None,
            latest: LatestSlot::new(),
            lifecycle: ServiceLifecycle::new(),
            metrics: MinimapMetrics::new(),
        }
    }

    /// The most recently processed frame bytes for display, if any.
    pub fn latest_frame(&self) -> (r: Option<Vec<u8>>)
        ensures
            match r {
                Some(v) => self.spec_latest() == Some(v@),
                None => self.spec_latest() is None,
            },
    {
        self.latest.latest()
    }

    pub fn is_capturing(&self) -> (r: bool)
        ensures
            r == (self.spec_state() == ServiceState::Running),
    {
        matches!(self.lifecycle.state(), ServiceState::Running)
    }

    pub fn get_current_window_title(&self) -> (r: Option<String>)
        ensures
            match r {
                Some(t) => self.spec_title() == Some(t@),
                None => self.spec_title() is None,
            },
    {
        match &self.current_window_title {
            Some(t) => Some(t.clone()),
            None => None,
        }
    }

    /// The externally visible state, reconciling the internal lifecycle
    /// with the orchestrator's reality: the service only reports `Running`
    /// while the orchestrator actually captures and a target is set.
    pub fn get_service_state(&self, graphics: &GraphicsCaptureService) -> (r: ServiceState)
        ensures
            r == ({
                let st = self.spec_state();
                if st == ServiceState::Running {
                    if (graphics.binding().push_active || graphics.dxgi_present())
                        && self.spec_title() is Some {
                        ServiceState::Running
                    } else {
                        ServiceState::Stopped
                    }
                } else {
                    st
                }
            }),
    {
        match self.lifecycle.state() {
            ServiceState::Stopping => ServiceState::Stopping,
            ServiceState::Starting => ServiceState::Starting,
            ServiceState::Running => {
                if graphics.is_capturing() && self.current_window_title.is_some() {
                    ServiceState::Running
                } else {
                    ServiceState::Stopped
                }
            },
            ServiceState::Stopped => ServiceState::Stopped,
        }
    }

    /// Counter snapshots of the orchestrator and of this service.
    pub fn get_performance_metrics(&self, graphics: &GraphicsCaptureService) -> (r: (
        CaptureStats,
        MinimapStats,
    ))
        ensures
            r.0.frames_captured == graphics.metrics().frames_captured,
            r.0.frames_dropped == graphics.metrics().frames_dropped,
            r.1 == (MinimapStats {
                frames_processed: self.spec_metrics().frames_processed,
                frames_dropped: self.spec_metrics().frames_dropped,
                detections: self.spec_metrics().detections,
                total_processing_time_ms: self.spec_metrics().total_processing_time_ms,
                total_detect_time_ms: self.spec_metrics().total_detect_time_ms,
                total_encode_time_ms: self.spec_metrics().total_encode_time_ms,
            }),
    {
        (graphics.get_metrics(), self.metrics.get_stats())
    }

    /// Explicit operator reset of the processing counters.
    pub fn reset_metrics(&mut self)
        ensures
            final(self).spec_metrics() == MinimapMetrics::zeroed(),
            final(self).spec_state() == old(self).spec_state(),
            final(self).spec_title() == old(self).spec_title(),
            final(self).has_subscription() == old(self).has_subscription(),
            final(self).spec_latest() == old(self).spec_latest(),
    {
        self.metrics.reset();
    }

    /// Rebinds the service to a new target window: the previous processing
    /// run and binding are fully stopped first (every OS resource handle
    /// released), then the orchestrator binds the new target, the service
    /// subscribes to the hub, and processing starts. The end state is
    /// bound to the new target alone; a target that is not found leaves
    /// the service stopped.
    pub fn set_window(&mut self, graphics: &mut GraphicsCaptureService, title: &str,
        resolved: bool) -> (r: Result<(), String>)
        requires
            old(self).compatible_with(*old(graphics)),
            old(graphics).hub_subscribers() < u64::MAX,
        ensures
            final(self).compatible_with(*final(graphics)),
            r.is_ok() == resolved,
            final(graphics).hub_history() == old(graphics).hub_history(),
            final(graphics).hub_published() == old(graphics).hub_published(),
            final(graphics).hub_capacity() == old(graphics).hub_capacity(),
            final(graphics).metrics() == old(graphics).metrics(),
            resolved ==> {
                &&& final(self).spec_state() == ServiceState::Running
                &&& final(self).spec_title() == Some(title@)
                &&& final(self).has_subscription()
                &&& final(self).spec_cursor() == final(graphics).hub_published()
                &&& final(graphics).binding() == bind_push(
                    teardown(old(graphics).binding()),
                    title@,
                )
                &&& final(graphics).binding().handles() == 1
            },
            !resolved ==> {
                &&& final(self).spec_state() == ServiceState::Stopped
                &&& final(self).spec_title() is None
                &&& !final(self).has_subscription()
                &&& final(graphics).binding() == teardown(old(graphics).binding())
            },
            final(self).spec_metrics() == old(self).spec_metrics(),
    {
        // A set-target issued while a stop is in flight first fully
        // awaits that stop before any teardown or setup of its own.
        if matches!(self.lifecycle.state(), ServiceState::Stopping) {
            self.lifecycle.complete_stop();
        }
        let stop_result = self.stop_capture(graphics);
        let _ = stop_result;
        match graphics.start_window_capture(title, resolved) {
            Ok(()) => {},
            Err(e) => {
                return Err(e);
            },
        }
        let sub = graphics.subscribe();
        self.subscription = Some(sub);
        self.current_window_title = Some(title.to_owned());
        self.start_capture()
    }

    /// Starts the processing run: requires a live hub subscription (from a
    /// prior bind), transitions to `Running`, and the asynchronous shell
    /// then drives [`Self::handle_recv`] until told to exit.
    pub fn start_capture(&mut self) -> (r: Result<(), String>)
        ensures
            r.is_ok() == old(self).has_subscription(),
            r.is_ok() ==> final(self).spec_state() == ServiceState::Running,
            r.is_err() ==> final(self).spec_state() == old(self).spec_state(),
            final(self).spec_title() == old(self).spec_title(),
            final(self).has_subscription() == old(self).has_subscription(),
            (old(self).has_subscription() ==> final(self).spec_cursor() == old(self).spec_cursor()),
            final(self).spec_latest() == old(self).spec_latest(),
            final(self).spec_metrics() == old(self).spec_metrics(),
    {
        if self.subscription.is_none() {
            proof {
                reveal_strlit("no graphics capture subscription");
            }
            return Err("no graphics capture subscription".to_owned());
        }
        let claimed = self.lifecycle.begin_start();
        if !claimed {
            // Re-entrant start: serialize by forcing the cycle through a
            // fresh transition rather than interleaving with another run.
            let stop_claimed = self.lifecycle.begin_stop();
            let _ = stop_claimed;
            self.lifecycle.complete_stop();
            let start_claimed = self.lifecycle.begin_start();
            let _ = start_claimed;
        }
        self.lifecycle.complete_start();
        Ok(())
    }

    /// Stops the processing run. The stop guard makes overlapping stop
    /// requests idempotent: the request that claims the guard runs the
    /// one teardown — the subscription and target are cleared, an empty
    /// "no frame" value is published to the latest-value slot, and the
    /// orchestrator is told to stop, releasing every OS resource handle —
    /// while a request that observes a stop already in flight returns at
    /// once, re-running no teardown side effect.
    pub fn stop_capture(&mut self, graphics: &mut GraphicsCaptureService) -> (r: Result<(), String>)
        requires
            old(self).compatible_with(*old(graphics)),
        ensures
            r.is_ok(),
            final(self).compatible_with(*final(graphics)),
            final(self).spec_metrics() == old(self).spec_metrics(),
            old(self).spec_state() == ServiceState::Stopping ==> {
                &&& final(self).spec_state() == ServiceState::Stopping
                &&& final(self).spec_title() == old(self).spec_title()
                &&& final(self).has_subscription() == old(self).has_subscription()
                &&& (old(self).has_subscription() ==> final(self).spec_cursor() == old(self).spec_cursor())
                &&& final(self).spec_latest() == old(self).spec_latest()
                &&& *final(graphics) == *old(graphics)
            },
            old(self).spec_state() != ServiceState::Stopping ==> {
                &&& final(self).spec_state() == ServiceState::Stopped
                &&& final(self).spec_title() is None
                &&& !final(self).has_subscription()
                &&& final(self).spec_latest() is None
                &&& final(graphics).binding() == teardown(old(graphics).binding())
                &&& final(graphics).binding().handles() == 0
                &&& final(graphics).hub_history() == old(graphics).hub_history()
                &&& final(graphics).hub_published() == old(graphics).hub_published()
                &&& final(graphics).hub_capacity() == old(graphics).hub_capacity()
                &&& final(graphics).metrics() == old(graphics).metrics()
                &&& final(graphics).hub_subscribers() == old(graphics).hub_subscribers() - (if old(self).has_subscription() {
                    1int
                } else {
                    0int
                })
            },
    {
        let claimed = self.lifecycle.begin_stop();
        if !claimed {
            // A stop is already in flight: observe the guard and return
            // immediately, without re-running any teardown side effect.
            return Ok(());
        }
        self.current_window_title = None;
        match self.subscription.take() {
            Some(sub) => graphics.unsubscribe(sub),
            None => {},
        }
        self.latest.publish(None);
        graphics.stop_capture();
        self.lifecycle.complete_stop();
        Ok(())
    }

    /// The service's own teardown, without touching the orchestrator: the
    /// subscription handle is dropped locally and the latest-value slot is
    /// cleared. Under the same stop guard, a request that observes a stop
    /// already in flight is a no-op.
    pub fn stop_local(&mut self) -> (r: Result<(), String>)
        ensures
            r.is_ok(),
            final(self).spec_metrics() == old(self).spec_metrics(),
            old(self).spec_state() == ServiceState::Stopping ==> {
                &&& final(self).spec_state() == ServiceState::Stopping
                &&& final(self).spec_title() == old(self).spec_title()
                &&& final(self).has_subscription() == old(self).has_subscription()
                &&& final(self).spec_latest() == old(self).spec_latest()
            },
            old(self).spec_state() != ServiceState::Stopping ==> {
                &&& final(self).spec_state() == ServiceState::Stopped
                &&& final(self).spec_title() is None
                &&& !final(self).has_subscription()
                &&& final(self).spec_latest() is None
            },
    {
        let claimed = self.lifecycle.begin_stop();
        if !claimed {
            return Ok(());
        }
        self.current_window_title = None;
        self.subscription = None;
        self.latest.publish(None);
        self.lifecycle.complete_stop();
        Ok(())
    }

    /// Activates the high-performance duplication mode on the
    /// orchestrator.
    pub fn enable_dxgi_mode(&mut self, graphics: &mut GraphicsCaptureService, session: Result<
        (),
        crate::engine::DxgiError,
    >) -> (r: Result<(), String>)
        requires
            old(self).compatible_with(*old(graphics)),
            !old(graphics).dxgi_present(),
        ensures
            final(self).compatible_with(*final(graphics)),
            r.is_ok() == session.is_ok(),
            session.is_ok() ==> final(graphics).binding() == (BindingModel {
                dxgi_active: true,
                ..old(graphics).binding()
            }) && final(graphics).dxgi_present() && final(graphics).gpu_processing(),
            session.is_err() ==> final(graphics).binding() == old(graphics).binding() && final(graphics).dxgi_present() == old(graphics).dxgi_present(),
            final(graphics).hub_history() == old(graphics).hub_history(),
            final(graphics).hub_published() == old(graphics).hub_published(),
            final(graphics).hub_subscribers() == old(graphics).hub_subscribers(),
            final(graphics).hub_capacity() == old(graphics).hub_capacity(),
            final(graphics).metrics() == old(graphics).metrics(),
            final(self).spec_state() == old(self).spec_state(),
            final(self).spec_title() == old(self).spec_title(),
            final(self).has_subscription() == old(self).has_subscription(),
            final(self).spec_latest() == old(self).spec_latest(),
            final(self).spec_metrics() == old(self).spec_metrics(),
    {
        graphics.start_dxgi_capture(session)
    }

    /// Processes one received frame: the detection predicate runs and its
    /// result is counted, then the frame is encoded and the result
    /// republished to the latest-value slot. An encode failure drops the
    /// frame, counts it, and is never fatal.
    pub fn process_frame<D: DetectionPredicate>(&mut self, frame: &CapturedFrame, detector: &D,
        detect_ms: u64, encode_ms: u64, total_ms: u64) -> (r: Result<(), EncodeError>)
        requires
            frame.wf(),
            frame.format.spec_is_raw() ==> 4 * frame.width * frame.height <= usize::MAX,
        ensures
            r.is_ok() == spec_encodable(frame@),
            final(self).spec_state() == old(self).spec_state(),
            final(self).spec_title() == old(self).spec_title(),
            final(self).has_subscription() == old(self).has_subscription(),
            ({
                let detected = detector.spec_detect(frame@);
                let m0 = old(self).spec_metrics();
                let m1 = final(self).spec_metrics();
                &&& m1.detections == (if detected {
                    sat_add(m0.detections, 1)
                } else {
                    m0.detections
                })
                &&& (r.is_ok() ==> m1.frames_processed == sat_add(m0.frames_processed, 1)
                    && m1.frames_dropped == m0.frames_dropped)
                &&& (r.is_err() ==> m1.frames_dropped == sat_add(m0.frames_dropped, 1)
                    && m1.frames_processed == m0.frames_processed)
            }),
            r.is_ok() ==> final(self).spec_latest() == Some(
                if frame.format.spec_is_raw() {
                    spec_encoded_bytes(frame@)
                } else {
                    frame.data@
                },
            ),
            r.is_err() ==> final(self).spec_latest() == old(self).spec_latest(),
    {
        let detected = detector.detect(frame);
        if detected {
            self.metrics.record_detection(detect_ms);
        } else {
            self.metrics.record_detect_time(detect_ms);
        }
        self.metrics.record_encode_time(encode_ms);
        match encode_frame(frame) {
            Ok(processed) => {
                self.latest.publish(Some(processed.data));
                self.metrics.record_processed(total_ms);
                Ok(())
            },
            Err(e) => {
                self.metrics.record_dropped(1);
                Err(e)
            },
        }
    }

    /// One step of the processing loop, deciding on a receive outcome: a
    /// frame is processed; a lag adds the exact skip count to the dropped
    /// counter and the loop continues (it never aborts merely because it
    /// lagged); nothing new keeps the loop waiting; a closed hub exits
    /// the loop.
    pub fn handle_recv<D: DetectionPredicate>(&mut self, outcome: RecvOutcome, detector: &D,
        detect_ms: u64, encode_ms: u64, total_ms: u64) -> (r: LoopDirective)
        requires
            (outcome matches RecvOutcome::Frame(f) ==> f.wf() && (f.format.spec_is_raw() ==> 4
                * f.width * f.height <= usize::MAX)),
        ensures
            final(self).spec_state() == old(self).spec_state(),
            final(self).spec_title() == old(self).spec_title(),
            final(self).has_subscription() == old(self).has_subscription(),
            ({
                let m0 = old(self).spec_metrics();
                let m1 = final(self).spec_metrics();
                match outcome {
                    RecvOutcome::Frame(f) => r == LoopDirective::Continue && (spec_encodable(f@)
                        ==> m1.frames_processed == sat_add(m0.frames_processed, 1) && final(self).spec_latest() == Some(
                        if f.format.spec_is_raw() {
                            spec_encoded_bytes(f@)
                        } else {
                            f.data@
                        },
                    )) && (!spec_encodable(f@) ==> m1.frames_dropped == sat_add(
                        m0.frames_dropped,
                        1,
                    )),
                    RecvOutcome::Lagged(skip) => r == LoopDirective::Continue
                        && m1.frames_dropped == sat_add(m0.frames_dropped, skip) && final(self).spec_latest() == old(self).spec_latest(),
                    RecvOutcome::Empty => r == LoopDirective::Continue && m1 == m0 && final(self).spec_latest() == old(self).spec_latest(),
                    RecvOutcome::Closed => r == LoopDirective::Exit && m1 == m0 && final(self).spec_latest() == old(self).spec_latest(),
                }
            }),
    {
        match outcome {
            RecvOutcome::Frame(frame) => {
                let step = self.process_frame(&frame, detector, detect_ms, encode_ms, total_ms);
                let _ = step;
                LoopDirective::Continue
            },
            RecvOutcome::Lagged(skip) => {
                self.metrics.record_dropped(skip);
                LoopDirective::Continue
            },
            RecvOutcome::Empty => LoopDirective::Continue,
            RecvOutcome::Closed => LoopDirective::Exit,
        }
    }
}

/// The capability shared by the long-running services: start and stop,
/// idempotent under concurrent calls.
pub trait Service {
    fn start(&mut self) -> Result<(), ()>;

    fn stop(&mut self) -> Result<(), ()>;
}

impl Service for MinimapService {
    fn start(&mut self) -> Result<(), ()> {
        match self.start_capture() {
            Ok(()) => Ok(()),
            Err(_) => Err(()),
        }
    }

    fn stop(&mut self) -> Result<(), ()> {
        match self.stop_local() {
            Ok(()) => Ok(()),
            Err(_) => Err(()),
        }
    }
}

} // verus!
