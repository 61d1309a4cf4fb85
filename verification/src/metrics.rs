//! Counters kept by the capture and processing services. All counters are
//! monotonic for the life of the owning instance (saturating at the type
//! maximum rather than wrapping) and reset only by explicit operator
//! action.

use vstd::prelude::*;

verus! {

/// `x + n` saturating at `u64::MAX`.
pub open spec fn sat_add(x: u64, n: u64) -> u64 {
    if x + n <= u64::MAX {
        (x + n) as u64
    } else {
        u64::MAX
    }
}

fn saturating_add_u64(x: u64, n: u64) -> (r: u64)
    ensures
        r == sat_add(x, n),
{
    if x <= u64::MAX - n {
        x + n
    } else {
        u64::MAX
    }
}

/// Counters of the capture orchestrator.
#[derive(Debug, Clone, Copy, PartialEq, Eq, Structural)]
pub struct CaptureMetrics {
    pub frames_captured: u64,
    pub frames_dropped: u64,
    pub total_capture_time_ms: u64,
    pub active_subscribers: u64,
}

/// A point-in-time snapshot of [`CaptureMetrics`].
#[derive(Debug, Clone, Copy, PartialEq, Eq, Structural)]
pub struct CaptureStats {
    pub frames_captured: u64,
    pub frames_dropped: u64,
    pub total_capture_time_ms: u64,
    pub active_subscribers: u64,
}

impl CaptureMetrics {
    pub fn new() -> (r: Self)
        ensures
            r == (CaptureMetrics {
                frames_captured: 0u64,
                frames_dropped: 0u64,
                total_capture_time_ms: 0u64,
                active_subscribers: 0u64,
            }),
    {
        CaptureMetrics {
            frames_captured: 0,
            frames_dropped: 0,
            total_capture_time_ms: 0,
            active_subscribers: 0,
        }
    }

    /// One more frame was captured and published, taking `elapsed_ms`.
    pub fn record_captured(&mut self, elapsed_ms: u64)
        ensures
            final(self).frames_captured == sat_add(old(self).frames_captured, 1),
            final(self).total_capture_time_ms == sat_add(
                old(self).total_capture_time_ms,
                elapsed_ms,
            ),
            final(self).frames_dropped == old(self).frames_dropped,
            final(self).active_subscribers == old(self).active_subscribers,
    {
        self.frames_captured = saturating_add_u64(self.frames_captured, 1);
        self.total_capture_time_ms = saturating_add_u64(self.total_capture_time_ms, elapsed_ms);
    }

    /// `n` frames were dropped (a failed publish, or frames lost
    /// downstream).
    pub fn record_dropped(&mut self, n: u64)
        ensures
            final(self).frames_dropped == sat_add(old(self).frames_dropped, n),
            final(self).frames_captured == old(self).frames_captured,
            final(self).total_capture_time_ms == old(self).total_capture_time_ms,
            final(self).active_subscribers == old(self).active_subscribers,
    {
        self.frames_dropped = saturating_add_u64(self.frames_dropped, n);
    }

    pub fn set_active_subscribers(&mut self, n: u64)
        ensures
            final(self).active_subscribers == n,
            final(self).frames_captured == old(self).frames_captured,
            final(self).frames_dropped == old(self).frames_dropped,
            final(self).total_capture_time_ms == old(self).total_capture_time_ms,
    {
        self.active_subscribers = n;
    }

    /// Structured snapshot of the counters.
    pub fn get_stats(&self) -> (r: CaptureStats)
        ensures
            r.frames_captured == self.frames_captured,
            r.frames_dropped == self.frames_dropped,
            r.total_capture_time_ms == self.total_capture_time_ms,
            r.active_subscribers == self.active_subscribers,
    {
        CaptureStats {
            frames_captured: self.frames_captured,
            frames_dropped: self.frames_dropped,
            total_capture_time_ms: self.total_capture_time_ms,
            active_subscribers: self.active_subscribers,
        }
    }
}

/// Counters of the frame-processing (minimap) service.
#[derive(Debug, Clone, Copy, PartialEq, Eq, Structural)]
pub struct MinimapMetrics {
    pub frames_processed: u64,
    pub frames_dropped: u64,
    pub detections: u64,
    pub total_processing_time_ms: u64,
    pub total_detect_time_ms: u64,
    pub total_encode_time_ms: u64,
}

/// A point-in-time snapshot of [`MinimapMetrics`].
#[derive(Debug, Clone, Copy, PartialEq, Eq, Structural)]
pub struct MinimapStats {
    pub frames_processed: u64,
    pub frames_dropped: u64,
    pub detections: u64,
    pub total_processing_time_ms: u64,
    pub total_detect_time_ms: u64,
    pub total_encode_time_ms: u64,
}

impl MinimapMetrics {
    pub fn new() -> (r: Self)
        ensures
            r == MinimapMetrics::zeroed(),
    {
        MinimapMetrics {
            frames_processed: 0,
            frames_dropped: 0,
            detections: 0,
            total_processing_time_ms: 0,
            total_detect_time_ms: 0,
            total_encode_time_ms: 0,
        }
    }

    pub open spec fn zeroed() -> MinimapMetrics {
        MinimapMetrics {
            frames_processed: 0u64,
            frames_dropped: 0u64,
            detections: 0u64,
            total_processing_time_ms: 0u64,
            total_detect_time_ms: 0u64,
            total_encode_time_ms: 0u64,
        }
    }

    pub fn record_processed(&mut self, elapsed_ms: u64)
        ensures
            *final(self) == (MinimapMetrics {
                frames_processed: sat_add(old(self).frames_processed, 1),
                total_processing_time_ms: sat_add(
                    old(self).total_processing_time_ms,
                    elapsed_ms,
                ),
                ..*old(self)
            }),
    {
        self.frames_processed = saturating_add_u64(self.frames_processed, 1);
        self.total_processing_time_ms = saturating_add_u64(
            self.total_processing_time_ms,
            elapsed_ms,
        );
    }

    pub fn record_dropped(&mut self, n: u64)
        ensures
            *final(self) == (MinimapMetrics {
                frames_dropped: sat_add(old(self).frames_dropped, n),
                ..*old(self)
            }),
    {
        self.frames_dropped = saturating_add_u64(self.frames_dropped, n);
    }

    pub fn record_detection(&mut self, elapsed_ms: u64)
        ensures
            *final(self) == (MinimapMetrics {
                detections: sat_add(old(self).detections, 1),
                total_detect_time_ms: sat_add(old(self).total_detect_time_ms, elapsed_ms),
                ..*old(self)
            }),
    {
        self.detections = saturating_add_u64(self.detections, 1);
        self.total_detect_time_ms = saturating_add_u64(self.total_detect_time_ms, elapsed_ms);
    }

    pub fn record_detect_time(&mut self, elapsed_ms: u64)
        ensures
            *final(self) == (MinimapMetrics {
                total_detect_time_ms: sat_add(old(self).total_detect_time_ms, elapsed_ms),
                ..*old(self)
            }),
    {
        self.total_detect_time_ms = saturating_add_u64(self.total_detect_time_ms, elapsed_ms);
    }

    pub fn record_encode_time(&mut self, elapsed_ms: u64)
        ensures
            *final(self) == (MinimapMetrics {
                total_encode_time_ms: sat_add(old(self).total_encode_time_ms, elapsed_ms),
                ..*old(self)
            }),
    {
        self.total_encode_time_ms = saturating_add_u64(self.total_encode_time_ms, elapsed_ms);
    }

    /// Explicit operator reset: every counter returns to zero.
    pub fn reset(&mut self)
        ensures
            *final(self) == MinimapMetrics::zeroed(),
    {
        self.frames_processed = 0;
        self.frames_dropped = 0;
        self.detections = 0;
        self.total_processing_time_ms = 0;
        self.total_detect_time_ms = 0;
        self.total_encode_time_ms = 0;
    }

    /// Structured snapshot of the counters.
    pub fn get_stats(&self) -> (r: MinimapStats)
        ensures
            r == (MinimapStats {
                frames_processed: self.frames_processed,
                frames_dropped: self.frames_dropped,
                detections: self.detections,
                total_processing_time_ms: self.total_processing_time_ms,
                total_detect_time_ms: self.total_detect_time_ms,
                total_encode_time_ms: self.total_encode_time_ms,
            }),
    {
        MinimapStats {
            frames_processed: self.frames_processed,
            frames_dropped: self.frames_dropped,
            detections: self.detections,
            total_processing_time_ms: self.total_processing_time_ms,
            total_detect_time_ms: self.total_detect_time_ms,
            total_encode_time_ms: self.total_encode_time_ms,
        }
    }
}

/// Counters of an auxiliary frame-consuming service.
#[derive(Debug, Clone, Copy, PartialEq, Eq, Structural)]
pub struct ImageProcessingMetrics {
    pub frames_processed: u64,
    pub frames_dropped: u64,
    pub total_processing_time_ms: u64,
    pub feature_detections: u64,
}

/// A point-in-time snapshot of [`ImageProcessingMetrics`].
#[derive(Debug, Clone, Copy, PartialEq, Eq, Structural)]
pub struct ImageProcessingStats {
    pub frames_processed: u64,
    pub frames_dropped: u64,
    pub total_processing_time_ms: u64,
    pub feature_detections: u64,
}

impl ImageProcessingMetrics {
    pub fn new() -> (r: Self)
        ensures
            r == (ImageProcessingMetrics {
                frames_processed: 0u64,
                frames_dropped: 0u64,
                total_processing_time_ms: 0u64,
                feature_detections: 0u64,
            }),
    {
        ImageProcessingMetrics {
            frames_processed: 0,
            frames_dropped: 0,
            total_processing_time_ms: 0,
            feature_detections: 0,
        }
    }

    pub fn record_processed(&mut self, elapsed_ms: u64)
        ensures
            *final(self) == (ImageProcessingMetrics {
                frames_processed: sat_add(old(self).frames_processed, 1),
                total_processing_time_ms: sat_add(
                    old(self).total_processing_time_ms,
                    elapsed_ms,
                ),
                ..*old(self)
            }),
    {
        self.frames_processed = saturating_add_u64(self.frames_processed, 1);
        self.total_processing_time_ms = saturating_add_u64(
            self.total_processing_time_ms,
            elapsed_ms,
        );
    }

    pub fn record_dropped(&mut self, n: u64)
        ensures
            *final(self) == (ImageProcessingMetrics {
                frames_dropped: sat_add(old(self).frames_dropped, n),
                ..*old(self)
            }),
    {
        self.frames_dropped = saturating_add_u64(self.frames_dropped, n);
    }

    pub fn record_feature_detection(&mut self)
        ensures
            *final(self) == (ImageProcessingMetrics {
                feature_detections: sat_add(old(self).feature_detections, 1),
                ..*old(self)
            }),
    {
        self.feature_detections = saturating_add_u64(self.feature_detections, 1);
    }

    /// Structured snapshot of the counters.
    pub fn get_stats(&self) -> (r: ImageProcessingStats)
        ensures
            r == (ImageProcessingStats {
                frames_processed: self.frames_processed,
                frames_dropped: self.frames_dropped,
                total_processing_time_ms: self.total_processing_time_ms,
                feature_detections: self.feature_detections,
            }),
    {
        ImageProcessingStats {
            frames_processed: self.frames_processed,
            frames_dropped: self.frames_dropped,
            total_processing_time_ms: self.total_processing_time_ms,
            feature_detections: self.feature_detections,
        }
    }
}

} // verus!
