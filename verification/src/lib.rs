//! Capture-and-distribution engine: a pluggable capture-backend model, a
//! GPU-texture extraction path with CPU fallback, a broadcast hub that fans
//! frames out to independent subscribers with defined loss semantics, and a
//! frame-processing service with a restart-safe lifecycle state machine.

use vstd::prelude::*;

pub mod codec;
pub mod engine;
pub mod frame;
pub mod hub;
pub mod image_processing;
pub mod input;
pub mod lifecycle;
pub mod metrics;
pub mod orchestrator;
pub mod pixels;
pub mod platform;
pub mod processing;
pub mod texture;

verus! {

/// Number of frames the broadcast hub retains for slow subscribers.
pub const HUB_CAPACITY: usize = 100;

} // verus!
