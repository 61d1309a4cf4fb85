//! The desktop-duplication engine: it owns the duplication session for its
//! lifetime and wraps acquire/release-frame semantics with device-loss
//! recovery. The OS acquire call itself happens in the unverified shell,
//! which reports its outcome as an [`AcquireOutcome`] event; the engine's
//! state machine and error mapping are verified for every possible event.

use vstd::prelude::*;

use crate::frame::{FrameFormat, ProcessedFrame};
use crate::texture::{Texture, TextureProcessor, extraction_method};

verus! {

/// The duplication error taxonomy. `AccessLost` forces the engine back to
/// the unbound state and requires re-initialization; `Timeout` and "no new
/// frame" are normal outcomes, not faults.
#[derive(Debug, Clone)]
pub enum DxgiError {
    FactoryCreation(String),
    DeviceCreation(String),
    AdapterError(String),
    OutputError(String),
    DuplicationError(String),
    AccessLost,
    Timeout,
    InvalidCall,
    WindowsError(u32, String),
}

/// What the OS duplication session reported for one acquire-frame call;
/// supplied by the unverified shell that makes the call.
pub enum AcquireOutcome {
    /// A new frame arrived and its surface was read back.
    Frame(Texture),
    /// The acquire succeeded but carried no surface.
    NoFrame,
    /// Nothing new within the wait interval; a normal outcome.
    TimedOut,
    /// The duplication session was invalidated (display-mode change,
    /// desktop switch).
    AccessLost,
    /// The session rejected the call.
    InvalidCall,
    /// Any other platform error, by code and message.
    Failed(u32, String),
}

impl AcquireOutcome {
    pub open spec fn is_access_lost(self) -> bool {
        self matches AcquireOutcome::AccessLost
    }
}

/// Whether the engine still holds a bound duplication session after a
/// capture call that observed `outcome`: only session loss unbinds it.
pub open spec fn bound_after_acquire(outcome: AcquireOutcome) -> bool {
    !outcome.is_access_lost()
}

/// Owns the (modeled) device/context and the desktop-duplication session.
/// `initialize_primary_output` binds to the primary output; a capture that
/// observes `AccessLost` unbinds the engine, and the caller must
/// initialize again before capturing.
pub struct DxgiDesktopDuplication {
    bound: bool,
    texture_processor: TextureProcessor,
}

impl DxgiDesktopDuplication {
    /// Whether a duplication session is currently bound.
    pub closed spec fn spec_bound(self) -> bool {
        self.bound
    }

    pub closed spec fn spec_gpu_processing(self) -> bool {
        self.texture_processor.gpu_processing_enabled
    }

    /// A fresh engine: device and context acquired, no duplication session
    /// bound yet, GPU processing enabled by default.
    pub fn new() -> (r: Self)
        ensures
            !r.spec_bound(),
            r.spec_gpu_processing(),
    {
        DxgiDesktopDuplication { bound: false, texture_processor: TextureProcessor::new() }
    }

    /// Binds desktop duplication to the primary output. The unverified
    /// shell performs the factory/adapter/output/duplicate calls and
    /// reports `session`: on success the engine is bound; on failure it
    /// stays unbound and the error is surfaced once to the caller, never
    /// retried silently.
    pub fn initialize_primary_output(&mut self, session: Result<(), DxgiError>) -> (r: Result<
        (),
        DxgiError,
    >)
        ensures
            r.is_ok() == session.is_ok(),
            final(self).spec_bound() == session.is_ok(),
            final(self).spec_gpu_processing() == old(self).spec_gpu_processing(),
    {
        match session {
            Ok(()) => {
                self.bound = true;
                Ok(())
            },
            Err(e) => {
                self.bound = false;
                Err(e)
            },
        }
    }

    /// One acquire step. Requires a bound session (`InvalidCall`
    /// otherwise). A timeout or an empty acquire is `Ok(None)` — a normal,
    /// non-error outcome. `AccessLost` unbinds the engine and surfaces the
    /// error so the caller re-initializes.
    pub fn capture_frame(&mut self, acquired: AcquireOutcome) -> (r: Result<
        Option<Texture>,
        DxgiError,
    >)
        ensures
            !old(self).spec_bound() ==> {
                &&& (r matches Err(e) && (e matches DxgiError::InvalidCall))
                &&& final(self).spec_bound() == old(self).spec_bound()
            },
            old(self).spec_bound() ==> final(self).spec_bound() == bound_after_acquire(acquired),
            old(self).spec_bound() ==> match acquired {
                AcquireOutcome::Frame(t) => r matches Ok(Some(rt)) && rt == t,
                AcquireOutcome::NoFrame => r matches Ok(None),
                AcquireOutcome::TimedOut => r matches Ok(None),
                AcquireOutcome::AccessLost => r matches Err(e) && (e
                    matches DxgiError::AccessLost),
                AcquireOutcome::InvalidCall => r matches Err(e) && (e
                    matches DxgiError::InvalidCall),
                AcquireOutcome::Failed(code, msg) => r matches Err(e) && (e
                    matches DxgiError::WindowsError(c, m) && c == code && m@ == msg@),
            },
            final(self).spec_gpu_processing() == old(self).spec_gpu_processing(),
    {
        if !self.bound {
            return Err(DxgiError::InvalidCall);
        }
        match acquired {
            AcquireOutcome::Frame(t) => Ok(Some(t)),
            AcquireOutcome::NoFrame => Ok(None),
            AcquireOutcome::TimedOut => Ok(None),
            AcquireOutcome::AccessLost => {
                self.bound = false;
                Err(DxgiError::AccessLost)
            },
            AcquireOutcome::InvalidCall => Err(DxgiError::InvalidCall),
            AcquireOutcome::Failed(code, msg) => Err(DxgiError::WindowsError(code, msg)),
        }
    }

    /// Acquire and extract in one step, for the processing service: a
    /// frame surface is run through the texture extractor; an extraction
    /// failure is surfaced as a duplication error for this frame only.
    pub fn capture_frame_for_minimap(&mut self, acquired: AcquireOutcome) -> (r: Result<
        Option<ProcessedFrame>,
        DxgiError,
    >)
        requires
            (acquired matches AcquireOutcome::Frame(t) ==> t.wf()),
        ensures
            !old(self).spec_bound() ==> (r matches Err(e) && (e matches DxgiError::InvalidCall)),
            old(self).spec_bound() ==> final(self).spec_bound() == bound_after_acquire(acquired),
            old(self).spec_bound() ==> match acquired {
                AcquireOutcome::Frame(t) => if t.map_ok {
                    r matches Ok(Some(f)) && {
                        &&& f.width == t.width
                        &&& f.height == t.height
                        &&& f.format == FrameFormat::Bgra8
                        &&& f.timestamp_ms == t.timestamp_ms
                        &&& f.processing_method == extraction_method(
                            old(self).spec_gpu_processing(),
                            t,
                        )
                        &&& f.data@.len() == 4 * t.width * t.height
                        &&& forall|y: int, i: int|
                            0 <= y < t.height && 0 <= i < 4 * t.width ==> #[trigger] f.data@[y * (
                            4 * t.width) + i] == t.mapped@[y * t.row_pitch + i]
                    }
                } else {
                    r matches Err(e) && (e matches DxgiError::DuplicationError(_))
                },
                AcquireOutcome::NoFrame => r matches Ok(None),
                AcquireOutcome::TimedOut => r matches Ok(None),
                AcquireOutcome::AccessLost => r matches Err(e) && (e
                    matches DxgiError::AccessLost),
                AcquireOutcome::InvalidCall => r matches Err(e) && (e
                    matches DxgiError::InvalidCall),
                AcquireOutcome::Failed(..) => r matches Err(e) && (e
                    matches DxgiError::WindowsError(..)),
            },
            final(self).spec_gpu_processing() == old(self).spec_gpu_processing(),
    {
        match self.capture_frame(acquired) {
            Ok(Some(texture)) => match self.texture_processor.extract_frame_data(&texture) {
                Ok(processed) => Ok(Some(processed)),
                Err(e) => Err(DxgiError::DuplicationError(e.message())),
            },
            Ok(None) => Ok(None),
            Err(e) => Err(e),
        }
    }

    /// Extracts raw frame data from an already-acquired surface.
    pub fn extract_frame_data(&self, texture: &Texture) -> (r: Result<ProcessedFrame, DxgiError>)
        requires
            texture.wf(),
        ensures
            r.is_ok() == texture.map_ok,
            r matches Ok(f) ==> {
                &&& f.width == texture.width
                &&& f.height == texture.height
                &&& f.format == FrameFormat::Bgra8
                &&& f.timestamp_ms == texture.timestamp_ms
                &&& f.processing_method == extraction_method(self.spec_gpu_processing(), *texture)
                &&& f.data@.len() == 4 * texture.width * texture.height
                &&& forall|y: int, i: int|
                    0 <= y < texture.height && 0 <= i < 4 * texture.width
                        ==> #[trigger] f.data@[y * (4 * texture.width) + i] == texture.mapped@[y
                        * texture.row_pitch + i]
            },
            r matches Err(e) ==> (e matches DxgiError::DuplicationError(_)),
    {
        match self.texture_processor.extract_frame_data(texture) {
            Ok(processed) => Ok(processed),
            Err(e) => Err(DxgiError::DuplicationError(e.message())),
        }
    }

    /// Enables or disables GPU processing for frame extraction.
    pub fn set_gpu_processing(&mut self, enabled: bool)
        ensures
            final(self).spec_gpu_processing() == enabled,
            final(self).spec_bound() == old(self).spec_bound(),
    {
        self.texture_processor.set_gpu_processing(enabled);
    }

    /// Whether duplication is active (a session is bound).
    pub fn is_active(&self) -> (r: bool)
        ensures
            r == self.spec_bound(),
    {
        self.bound
    }

    /// Drops the duplication session, as after access loss; the engine is
    /// unbound until initialized again.
    pub fn reset(&mut self)
        ensures
            !final(self).spec_bound(),
            final(self).spec_gpu_processing() == old(self).spec_gpu_processing(),
    {
        self.bound = false;
    }
}

} // verus!
