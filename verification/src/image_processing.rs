//! An auxiliary consumer of the shared frame stream, showing how several
//! services feed off one capture: it subscribes to the hub, runs a
//! per-frame feature check, and keeps its own counters. The asynchronous
//! loop lives in the unverified shell; each decision it takes is a
//! verified step.

use vstd::prelude::*;

use crate::frame::CapturedFrame;
use crate::hub::{HubSubscriber, RecvOutcome};
use crate::metrics::{ImageProcessingMetrics, ImageProcessingStats, sat_add};
use crate::orchestrator::GraphicsCaptureService;
use crate::processing::LoopDirective;

verus! {

/// Whether the feature check fires for a frame: the stand-in heuristic
/// counts frames larger than 1000 x 600.
pub open spec fn spec_features_detected(width: u32, height: u32) -> bool {
    width > 1000 && height > 600
}

/// Consumes graphics frames for auxiliary computer-vision work.
pub struct ImageProcessingService {
    subscription: Option<HubSubscriber>,
    is_processing: bool,
    metrics: ImageProcessingMetrics,
}

impl ImageProcessingService {
    pub closed spec fn spec_processing(self) -> bool {
        self.is_processing
    }

    pub closed spec fn has_subscription(self) -> bool {
        self.subscription is Some
    }

    pub closed spec fn spec_cursor(self) -> int {
        self.subscription.unwrap().cursor as int
    }

    pub closed spec fn spec_metrics(self) -> ImageProcessingMetrics {
        self.metrics
    }

    /// The service's subscription, if any, is a valid receiver of the
    /// given orchestrator's hub, and exists only while the service is
    /// processing.
    pub open spec fn compatible_with(self, graphics: GraphicsCaptureService) -> bool {
        &&& graphics.wf()
        &&& (self.has_subscription() ==> self.spec_cursor() <= graphics.hub_published()
            && graphics.hub_subscribers() >= 1)
        &&& (!self.spec_processing() ==> !self.has_subscription())
    }

    pub fn new() -> (r: Self)
        ensures
            !r.spec_processing(),
            !r.has_subscription(),
            r.spec_metrics() == (ImageProcessingMetrics {
                frames_processed: 0u64,
                frames_dropped: 0u64,
                total_processing_time_ms: 0u64,
                feature_detections: 0u64,
            }),
    {
        ImageProcessingService {
            subscription: None,
            is_processing: false,
            metrics: ImageProcessingMetrics::new(),
        }
    }

    /// Starts consuming frames: subscribes to the hub and marks the
    /// service processing. A service already processing is left exactly
    /// as it is — the call is an idempotent no-op.
    pub fn start_processing(&mut self, graphics: &mut GraphicsCaptureService) -> (r: Result<
        (),
        String,
    >)
        requires
            old(self).compatible_with(*old(graphics)),
            old(graphics).hub_subscribers() < u64::MAX,
        ensures
            final(self).compatible_with(*final(graphics)),
            r.is_ok(),
            final(self).spec_processing(),
            final(self).spec_metrics() == old(self).spec_metrics(),
            final(graphics).hub_history() == old(graphics).hub_history(),
            final(graphics).hub_published() == old(graphics).hub_published(),
            final(graphics).metrics() == old(graphics).metrics(),
            final(graphics).binding() == old(graphics).binding(),
            old(self).spec_processing() ==> *final(self) == *old(self) && *final(graphics) == *old(graphics),
            !old(self).spec_processing() ==> final(self).has_subscription() && final(graphics).hub_subscribers() == old(graphics).hub_subscribers() + 1 && final(self).spec_cursor()
                == final(graphics).hub_published(),
    {
        if self.is_processing {
            return Ok(());
        }
        let sub = graphics.subscribe();
        self.subscription = Some(sub);
        self.is_processing = true;
        Ok(())
    }

    /// Stops consuming: the subscription is dropped and the service is no
    /// longer processing. Its counters are kept.
    pub fn stop_processing(&mut self, graphics: &mut GraphicsCaptureService)
        requires
            old(self).compatible_with(*old(graphics)),
        ensures
            final(self).compatible_with(*final(graphics)),
            !final(self).spec_processing(),
            !final(self).has_subscription(),
            final(self).spec_metrics() == old(self).spec_metrics(),
            final(graphics).hub_history() == old(graphics).hub_history(),
            final(graphics).hub_published() == old(graphics).hub_published(),
            final(graphics).metrics() == old(graphics).metrics(),
            final(graphics).binding() == old(graphics).binding(),
            final(graphics).hub_subscribers() == old(graphics).hub_subscribers() - (if old(self).has_subscription() {
                1int
            } else {
                0int
            }),
    {
        self.is_processing = false;
        match self.subscription.take() {
            Some(sub) => graphics.unsubscribe(sub),
            None => {},
        }
    }

    /// Structured snapshot of the counters.
    pub fn get_metrics(&self) -> (r: ImageProcessingStats)
        ensures
            r == (ImageProcessingStats {
                frames_processed: self.spec_metrics().frames_processed,
                frames_dropped: self.spec_metrics().frames_dropped,
                total_processing_time_ms: self.spec_metrics().total_processing_time_ms,
                feature_detections: self.spec_metrics().feature_detections,
            }),
    {
        self.metrics.get_stats()
    }

    /// Runs the feature check on one frame and counts the result.
    pub fn process_frame_for_features(&mut self, frame: &CapturedFrame, elapsed_ms: u64) -> (r:
        Result<(), String>)
        ensures
            r.is_ok(),
            final(self).spec_processing() == old(self).spec_processing(),
            final(self).has_subscription() == old(self).has_subscription(),
            ({
                let m0 = old(self).spec_metrics();
                let m1 = final(self).spec_metrics();
                &&& m1.frames_processed == sat_add(m0.frames_processed, 1)
                &&& m1.total_processing_time_ms == sat_add(m0.total_processing_time_ms, elapsed_ms)
                &&& m1.frames_dropped == m0.frames_dropped
                &&& m1.feature_detections == (if spec_features_detected(
                    frame.width,
                    frame.height,
                ) {
                    sat_add(m0.feature_detections, 1)
                } else {
                    m0.feature_detections
                })
            }),
    {
        if frame.width > 1000 && frame.height > 600 {
            self.metrics.record_feature_detection();
        }
        self.metrics.record_processed(elapsed_ms);
        Ok(())
    }

    /// One step of the consuming loop: a frame is processed; a lag adds
    /// the exact skip count to the dropped counter and the loop
    /// continues; a closed hub exits the loop.
    pub fn handle_recv(&mut self, outcome: RecvOutcome, elapsed_ms: u64) -> (r: LoopDirective)
        ensures
            final(self).spec_processing() == old(self).spec_processing(),
            final(self).has_subscription() == old(self).has_subscription(),
            ({
                let m0 = old(self).spec_metrics();
                let m1 = final(self).spec_metrics();
                match outcome {
                    RecvOutcome::Frame(f) => r == LoopDirective::Continue && m1.frames_processed
                        == sat_add(m0.frames_processed, 1) && m1.feature_detections == (if
                    spec_features_detected(f.width, f.height) {
                        sat_add(m0.feature_detections, 1)
                    } else {
                        m0.feature_detections
                    }),
                    RecvOutcome::Lagged(skip) => r == LoopDirective::Continue
                        && m1.frames_dropped == sat_add(m0.frames_dropped, skip)
                        && m1.frames_processed == m0.frames_processed,
                    RecvOutcome::Empty => r == LoopDirective::Continue && m1 == m0,
                    RecvOutcome::Closed => r == LoopDirective::Exit && m1 == m0,
                }
            }),
    {
        match outcome {
            RecvOutcome::Frame(frame) => {
                let step = self.process_frame_for_features(&frame, elapsed_ms);
                let _ = step;
                LoopDirective::Continue
            },
            RecvOutcome::Lagged(skip) => {
                self.metrics.record_dropped(skip);
                LoopDirective::Continue
            },
            RecvOutcome::Empty => LoopDirective::Continue,
            RecvOutcome::Closed => LoopDirective::Exit,
        }
    }
}

} // verus!
