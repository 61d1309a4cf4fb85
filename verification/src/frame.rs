//! Frame data model: raw captured frames, processed (encoded) frames, and
//! the pixel formats the engine understands.

use vstd::prelude::*;

verus! {

/// Pixel format of a frame's byte buffer.
#[derive(Clone, Copy, Debug, PartialEq, Eq, Structural)]
pub enum FrameFormat {
    Bgra8,
    Rgba8,
    Rgb8,
    Jpeg,
}

impl FrameFormat {
    /// Whether the format is a raw (unencoded) packed pixel layout.
    pub open spec fn spec_is_raw(self) -> bool {
        self != FrameFormat::Jpeg
    }

    /// Bytes per pixel of a raw format.
    pub open spec fn spec_bytes_per_pixel(self) -> nat {
        match self {
            FrameFormat::Bgra8 => 4,
            FrameFormat::Rgba8 => 4,
            FrameFormat::Rgb8 => 3,
            FrameFormat::Jpeg => 0,
        }
    }

    pub fn is_raw(&self) -> (r: bool)
        ensures
            r == self.spec_is_raw(),
    {
        !matches!(self, FrameFormat::Jpeg)
    }
}

/// Which backend produced a frame.
#[derive(Clone, Copy, Debug, PartialEq, Eq, Structural)]
pub enum CaptureSource {
    WindowsGraphicsCapture,
    DxgiDesktopDuplication,
}

/// How a frame's pixels were extracted from the capture surface.
#[derive(Clone, Copy, Debug, PartialEq, Eq, Structural)]
pub enum ProcessingMethod {
    CpuCopy,
    GpuOptimized,
    GpuCompute,
    GpuShader,
}

/// Mathematical model of a frame: its bytes as a sequence plus its metadata.
#[verifier::ext_equal]
pub struct FrameModel {
    pub data: Seq<u8>,
    pub width: u32,
    pub height: u32,
    pub format: FrameFormat,
    pub timestamp_ms: u64,
    pub source: CaptureSource,
}

/// Raw frame data with metadata, produced once per capture event and fanned
/// out by value to every subscriber; no consumer mutates it.
#[derive(Debug)]
pub struct CapturedFrame {
    pub data: Vec<u8>,
    pub width: u32,
    pub height: u32,
    pub format: FrameFormat,
    /// Capture timestamp in milliseconds, supplied by the producer.
    pub timestamp_ms: u64,
    pub source: CaptureSource,
}

impl View for CapturedFrame {
    type V = FrameModel;

    open spec fn view(&self) -> FrameModel {
        FrameModel {
            data: self.data@,
            width: self.width,
            height: self.height,
            format: self.format,
            timestamp_ms: self.timestamp_ms,
            source: self.source,
        }
    }
}

impl Clone for CapturedFrame {
    fn clone(&self) -> (r: Self)
        ensures
            r@ == self@,
    {
        CapturedFrame {
            data: self.data.clone(),
            width: self.width,
            height: self.height,
            format: self.format,
            timestamp_ms: self.timestamp_ms,
            source: self.source,
        }
    }
}

impl CapturedFrame {
    /// A raw frame's buffer holds exactly one packed pixel per coordinate.
    pub open spec fn wf(self) -> bool {
        self.format.spec_is_raw() ==> self.data@.len() == self.format.spec_bytes_per_pixel()
            * self.width * self.height
    }
}

/// A frame extracted from a capture surface, or the encoded display-ready
/// result of the processing service.
#[derive(Debug)]
pub struct ProcessedFrame {
    pub data: Vec<u8>,
    pub width: u32,
    pub height: u32,
    pub format: FrameFormat,
    pub timestamp_ms: u64,
    pub processing_method: ProcessingMethod,
}

impl Clone for ProcessedFrame {
    fn clone(&self) -> (r: Self)
        ensures
            r.data@ == self.data@,
            r.width == self.width,
            r.height == self.height,
            r.format == self.format,
            r.timestamp_ms == self.timestamp_ms,
            r.processing_method == self.processing_method,
    {
        ProcessedFrame {
            data: self.data.clone(),
            width: self.width,
            height: self.height,
            format: self.format,
            timestamp_ms: self.timestamp_ms,
            processing_method: self.processing_method,
        }
    }
}

impl ProcessedFrame {
    pub open spec fn wf(self) -> bool {
        self.format.spec_is_raw() ==> self.data@.len() == self.format.spec_bytes_per_pixel()
            * self.width * self.height
    }
}

/// A block-copy capture result: always packed BGRA.
#[derive(Debug)]
pub struct Frame {
    pub width: i32,
    pub height: i32,
    pub data: Vec<u8>,
}

impl Frame {
    pub open spec fn wf(self) -> bool {
        &&& self.width >= 0
        &&& self.height >= 0
        &&& self.data@.len() == 4 * self.width * self.height
    }
}

} // verus!
