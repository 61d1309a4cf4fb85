//! Texture extraction: turning a captured GPU surface into a CPU-side
//! pixel buffer. The extractor prefers a GPU-optimized copy path and falls
//! back to a CPU mapping path; both copy row by row, respecting the
//! surface's row pitch.
//!
//! The GPU surface itself lives in the OS/driver layer, which this library
//! models as data: a [`Texture`] holds what a staging copy and map of the
//! surface would let the extractor read, together with the surface
//! properties the path decision depends on.

use vstd::prelude::*;

use crate::frame::{FrameFormat, ProcessedFrame, ProcessingMethod};
use crate::pixels::copy_rows;

verus! {

/// A captured surface as the extractor sees it: the mapped bytes (rows
/// `row_pitch` apart, which may exceed the logical `4 * width`), the
/// surface dimensions, and the properties that decide which copy path is
/// usable.
pub struct Texture {
    /// Bytes visible after staging-copy and map, rows `row_pitch` apart.
    pub mapped: Vec<u8>,
    pub width: u32,
    pub height: u32,
    pub row_pitch: u32,
    /// The surface has default GPU usage and no CPU access flags, so the
    /// GPU-optimized staging path applies to it.
    pub gpu_default_usage: bool,
    /// Whether mapping a staging copy of this surface succeeds at all; when
    /// false, both copy paths fail for this frame.
    pub map_ok: bool,
    /// When the surface was acquired, in milliseconds.
    pub timestamp_ms: u64,
}

impl Texture {
    pub open spec fn wf(self) -> bool {
        &&& 4 * self.width <= self.row_pitch
        &&& self.height * self.row_pitch <= self.mapped@.len()
    }
}

/// Why extraction of one frame failed. Per-frame failures are recovered by
/// the caller and never fatal to the capture session.
#[derive(Debug, Clone)]
pub enum TextureProcessingError {
    StagingTextureCreation(String),
    TextureMapping(String),
    TextureCopy(String),
    GpuProcessing(String),
    WindowsError(u32, String),
}

impl TextureProcessingError {
    /// A short description of the failure, for logs and error mapping.
    pub fn message(&self) -> (r: String)
        ensures
            r@.len() > 0,
    {
        let s = match self {
            TextureProcessingError::StagingTextureCreation(_) => "failed to create staging texture",
            TextureProcessingError::TextureMapping(_) => "failed to map texture",
            TextureProcessingError::TextureCopy(_) => "failed to copy texture",
            TextureProcessingError::GpuProcessing(_) => "gpu processing failed",
            TextureProcessingError::WindowsError(_, _) => "platform error",
        };
        proof {
            reveal_strlit("failed to create staging texture");
            reveal_strlit("failed to map texture");
            reveal_strlit("failed to copy texture");
            reveal_strlit("gpu processing failed");
            reveal_strlit("platform error");
        }
        s.to_owned()
    }
}

/// What the processing paths can do on this device.
#[derive(Debug, Clone, Copy, PartialEq, Eq, Structural)]
pub struct ProcessingCapabilities {
    pub supports_cpu: bool,
    pub supports_gpu_optimized: bool,
    pub supports_gpu_compute: bool,
    pub supports_gpu_shader: bool,
}

/// Extracts CPU-side pixel buffers from captured surfaces. GPU processing
/// is preferred when enabled (the default); any GPU-path failure falls back
/// to the CPU path silently, and only a CPU-path failure is an error for
/// that frame.
pub struct TextureProcessor {
    pub gpu_processing_enabled: bool,
}

/// Whether extraction succeeds for surface `t` under the given GPU-path
/// preference: some copy path must be able to map the surface.
pub open spec fn extraction_succeeds(gpu_enabled: bool, t: Texture) -> bool {
    t.map_ok
}

/// Which method extraction reports for surface `t`: the GPU-optimized path
/// is taken exactly when it is enabled and the surface supports it.
pub open spec fn extraction_method(gpu_enabled: bool, t: Texture) -> ProcessingMethod {
    if gpu_enabled && t.gpu_default_usage {
        ProcessingMethod::GpuOptimized
    } else {
        ProcessingMethod::CpuCopy
    }
}

impl TextureProcessor {
    pub fn new() -> (r: Self)
        ensures
            r.gpu_processing_enabled,
    {
        TextureProcessor { gpu_processing_enabled: true }
    }

    /// Enable or disable the GPU-optimized path; the CPU path is always
    /// available as fallback.
    pub fn set_gpu_processing(&mut self, enabled: bool)
        ensures
            final(self).gpu_processing_enabled == enabled,
    {
        self.gpu_processing_enabled = enabled;
    }

    pub fn get_capabilities(&self) -> (r: ProcessingCapabilities)
        ensures
            r == (ProcessingCapabilities {
                supports_cpu: true,
                supports_gpu_optimized: true,
                supports_gpu_compute: false,
                supports_gpu_shader: false,
            }),
    {
        ProcessingCapabilities {
            supports_cpu: true,
            supports_gpu_optimized: true,
            supports_gpu_compute: false,
            supports_gpu_shader: false,
        }
    }

    /// Extracts the frame: GPU-optimized path first when enabled and the
    /// surface supports it, CPU path otherwise; the pixel bytes are the
    /// surface rows packed tightly, in row order.
    pub fn extract_frame_data(&self, texture: &Texture) -> (r: Result<
        ProcessedFrame,
        TextureProcessingError,
    >)
        requires
            texture.wf(),
        ensures
            r.is_ok() == extraction_succeeds(self.gpu_processing_enabled, *texture),
            r matches Ok(f) ==> {
                &&& f.width == texture.width
                &&& f.height == texture.height
                &&& f.format == FrameFormat::Bgra8
                &&& f.timestamp_ms == texture.timestamp_ms
                &&& f.processing_method == extraction_method(
                    self.gpu_processing_enabled,
                    *texture,
                )
                &&& f.data@.len() == 4 * texture.width * texture.height
                &&& forall|y: int, i: int|
                    0 <= y < texture.height && 0 <= i < 4 * texture.width
                        ==> #[trigger] f.data@[y * (4 * texture.width) + i] == texture.mapped@[y
                        * texture.row_pitch + i]
            },
            r matches Err(e) ==> (e matches TextureProcessingError::TextureMapping(_)),
    {
        if self.gpu_processing_enabled && texture.gpu_default_usage {
            match self.extract_with_gpu(texture) {
                Ok(frame) => Ok(frame),
                Err(_) => self.extract_with_cpu(texture),
            }
        } else {
            self.extract_with_cpu(texture)
        }
    }

    /// GPU-optimized extraction: a staging copy via device-to-device
    /// operations, then a row-by-row mapped read. Applies only to surfaces
    /// with default GPU usage.
    fn extract_with_gpu(&self, texture: &Texture) -> (r: Result<
        ProcessedFrame,
        TextureProcessingError,
    >)
        requires
            texture.wf(),
            texture.gpu_default_usage,
        ensures
            r.is_ok() == texture.map_ok,
            r matches Ok(f) ==> {
                &&& f.width == texture.width
                &&& f.height == texture.height
                &&& f.format == FrameFormat::Bgra8
                &&& f.timestamp_ms == texture.timestamp_ms
                &&& f.processing_method == ProcessingMethod::GpuOptimized
                &&& f.data@.len() == 4 * texture.width * texture.height
                &&& forall|y: int, i: int|
                    0 <= y < texture.height && 0 <= i < 4 * texture.width
                        ==> #[trigger] f.data@[y * (4 * texture.width) + i] == texture.mapped@[y
                        * texture.row_pitch + i]
            },
            r matches Err(e) ==> (e matches TextureProcessingError::TextureMapping(_)),
    {
        self.extract_rows(texture, ProcessingMethod::GpuOptimized)
    }

    /// CPU extraction: the identical staging and mapping procedure, used
    /// when the GPU path is disabled, unsupported by the surface, or
    /// failed.
    fn extract_with_cpu(&self, texture: &Texture) -> (r: Result<
        ProcessedFrame,
        TextureProcessingError,
    >)
        requires
            texture.wf(),
        ensures
            r.is_ok() == texture.map_ok,
            r matches Ok(f) ==> {
                &&& f.width == texture.width
                &&& f.height == texture.height
                &&& f.format == FrameFormat::Bgra8
                &&& f.timestamp_ms == texture.timestamp_ms
                &&& f.processing_method == ProcessingMethod::CpuCopy
                &&& f.data@.len() == 4 * texture.width * texture.height
                &&& forall|y: int, i: int|
                    0 <= y < texture.height && 0 <= i < 4 * texture.width
                        ==> #[trigger] f.data@[y * (4 * texture.width) + i] == texture.mapped@[y
                        * texture.row_pitch + i]
            },
            r matches Err(e) ==> (e matches TextureProcessingError::TextureMapping(_)),
    {
        self.extract_rows(texture, ProcessingMethod::CpuCopy)
    }

    /// The shared staging-and-map read: every row is copied independently,
    /// honoring the row pitch, never as one flat block.
    fn extract_rows(&self, texture: &Texture, method: ProcessingMethod) -> (r: Result<
        ProcessedFrame,
        TextureProcessingError,
    >)
        requires
            texture.wf(),
        ensures
            r.is_ok() == texture.map_ok,
            r matches Ok(f) ==> {
                &&& f.width == texture.width
                &&& f.height == texture.height
                &&& f.format == FrameFormat::Bgra8
                &&& f.timestamp_ms == texture.timestamp_ms
                &&& f.processing_method == method
                &&& f.data@.len() == 4 * texture.width * texture.height
                &&& forall|y: int, i: int|
                    0 <= y < texture.height && 0 <= i < 4 * texture.width
                        ==> #[trigger] f.data@[y * (4 * texture.width) + i] == texture.mapped@[y
                        * texture.row_pitch + i]
            },
            r matches Err(e) ==> (e matches TextureProcessingError::TextureMapping(_)),
    {
        if !texture.map_ok {
            proof {
                reveal_strlit("mapping the staging texture failed");
            }
            return Err(
                TextureProcessingError::TextureMapping(
                    "mapping the staging texture failed".to_owned(),
                ),
            );
        }
        let width = texture.width as usize;
        let height = texture.height as usize;
        let row_pitch = texture.row_pitch as usize;
        let data = copy_rows(&texture.mapped, width, height, row_pitch);
        Ok(
            ProcessedFrame {
                data,
                width: texture.width,
                height: texture.height,
                format: FrameFormat::Bgra8,
                timestamp_ms: texture.timestamp_ms,
                processing_method: method,
            },
        )
    }
}

/// The compute-shader processing path. The device offers no compute-shader
/// support here, so constructing the shader succeeds but processing always
/// reports that the path is unavailable.
pub struct MinimapComputeShader {
    pub available: bool,
}

impl MinimapComputeShader {
    pub fn new() -> (r: Result<Self, TextureProcessingError>)
        ensures
            r matches Ok(s) && !s.available,
    {
        Ok(MinimapComputeShader { available: false })
    }

    pub fn process(&self, _input_texture: &Texture) -> (r: Result<
        Vec<u8>,
        TextureProcessingError,
    >)
        ensures
            r matches Err(e) && (e matches TextureProcessingError::GpuProcessing(_)),
    {
        proof {
            reveal_strlit("compute shader path unavailable");
        }
        Err(TextureProcessingError::GpuProcessing("compute shader path unavailable".to_owned()))
    }
}

} // verus!
