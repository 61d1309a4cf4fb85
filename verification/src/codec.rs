//! The encode step of the frame-processing service. An already-encoded
//! frame passes through byte-identical; a raw frame whose dimensions
//! exceed the display target is downsampled to it, then encoded at a
//! fixed low quality (latency over fidelity). Resampling and entropy
//! coding are the codec crate's work, called behind trusted wrappers; the
//! policy around them — what is passed through, what is scaled, to which
//! dimensions, and what bytes reach the encoder — is verified.

use vstd::prelude::*;

use crate::frame::{CapturedFrame, FrameFormat, FrameModel, ProcessedFrame, ProcessingMethod};
use crate::pixels::{bgra_to_rgba, channel_swapped_seq, rgb_of, rgb_to_rgba, rgba_to_rgb, with_alpha};

verus! {

/// Display target width for oversized raw frames.
pub const DISPLAY_TARGET_WIDTH: u32 = 800;

/// Display target height for oversized raw frames.
pub const DISPLAY_TARGET_HEIGHT: u32 = 450;

/// Fixed encode quality, low for latency.
pub const ENCODE_QUALITY: u8 = 30;

/// What `image::imageops::resize` returns for an RGBA buffer of the given
/// dimensions resampled to the new dimensions: a function of its arguments
/// alone.
pub uninterp spec fn resized_rgba_of(
    data: Seq<u8>,
    width: u32,
    height: u32,
    new_width: u32,
    new_height: u32,
) -> Seq<u8>;

/// What the JPEG encoder produces for a packed RGB buffer of the given
/// dimensions at the given quality: a function of its arguments alone.
pub uninterp spec fn jpeg_bytes_of(rgb: Seq<u8>, width: u32, height: u32, quality: u8) -> Seq<u8>;

/// Relies on `image::imageops::resize` over `image::RgbaImage::from_raw`
/// / `into_raw`: the result is a packed RGBA buffer of exactly the new
/// dimensions, a function of the input buffer and the four dimensions
/// alone. The resampler offers no box kernel; the triangle kernel is its
/// closest averaging filter for downsampling, and is fixed here.
#[verifier::external_body]
fn resize_rgba(data: &Vec<u8>, width: u32, height: u32, new_width: u32, new_height: u32) -> (r:
    Vec<u8>)
    requires
        data@.len() == 4 * width * height,
        1 <= width,
        1 <= height,
        1 <= new_width,
        1 <= new_height,
        4 * new_width * new_height <= usize::MAX,
    ensures
        r@ == resized_rgba_of(data@, width, height, new_width, new_height),
        r@.len() == 4 * new_width * new_height,
{
    let img = image::RgbaImage::from_raw(width, height, data.clone()).unwrap();
    let out = image::imageops::resize(
        &img,
        new_width,
        new_height,
        image::imageops::FilterType::Triangle,
    );
    out.into_raw()
}

/// Relies on `image::codecs::jpeg::JpegEncoder::encode` with
/// `ExtendedColorType::Rgb8` into an in-memory buffer: for a packed RGB
/// buffer of matching length and dimensions within the JPEG limit the
/// encode succeeds, writes at least the marker bytes, and its output is a
/// function of the pixel bytes, the dimensions and the quality alone.
#[verifier::external_body]
fn encode_jpeg_rgb(rgb: &Vec<u8>, width: u32, height: u32, quality: u8) -> (r: Vec<u8>)
    requires
        rgb@.len() == 3 * width * height,
        1 <= width <= 65535,
        1 <= height <= 65535,
    ensures
        r@ == jpeg_bytes_of(rgb@, width, height, quality),
        r@.len() > 0,
{
    let mut buf: Vec<u8> = Vec::new();
    let mut encoder = image::codecs::jpeg::JpegEncoder::new_with_quality(&mut buf, quality);
    encoder.encode(rgb.as_slice(), width, height, image::ExtendedColorType::Rgb8).unwrap();
    buf
}

/// Why the encode step rejected a frame. Per-frame only: the processing
/// loop counts it and continues.
#[derive(Debug, Clone, Copy, PartialEq, Eq, Structural)]
pub enum EncodeError {
    /// The frame carries no pixel data.
    EmptyFrame,
    /// A raw frame's dimensions cannot be encoded (zero, or beyond the
    /// codec's limit).
    UnsupportedDimensions,
}

/// The dimensions the encode step emits: the display target when either
/// dimension exceeds it, the frame's own dimensions otherwise.
pub open spec fn spec_target_dims(width: u32, height: u32) -> (u32, u32) {
    if width > DISPLAY_TARGET_WIDTH || height > DISPLAY_TARGET_HEIGHT {
        (DISPLAY_TARGET_WIDTH, DISPLAY_TARGET_HEIGHT)
    } else {
        (width, height)
    }
}

/// A raw frame's pixels as packed RGBA, whatever raw format it came in.
pub open spec fn rgba_of_frame(m: FrameModel) -> Seq<u8> {
    match m.format {
        FrameFormat::Bgra8 => channel_swapped_seq(m.data),
        FrameFormat::Rgba8 => m.data,
        FrameFormat::Rgb8 => with_alpha(m.data),
        FrameFormat::Jpeg => m.data,
    }
}

/// The exact bytes the encode step owes for a raw frame: its RGBA pixels,
/// downsampled to the target dimensions when oversized, stripped of
/// alpha, and JPEG-encoded at the fixed quality.
pub open spec fn spec_encoded_bytes(m: FrameModel) -> Seq<u8> {
    let (tw, th) = spec_target_dims(m.width, m.height);
    let rgba = rgba_of_frame(m);
    let scaled = if tw == m.width && th == m.height {
        rgba
    } else {
        resized_rgba_of(rgba, m.width, m.height, tw, th)
    };
    jpeg_bytes_of(rgb_of(scaled), tw, th, ENCODE_QUALITY)
}

/// Whether the encode step accepts the frame: an encoded frame always
/// passes through; a raw frame needs non-empty data and dimensions the
/// codec can represent.
pub open spec fn spec_encodable(m: FrameModel) -> bool {
    if m.format.spec_is_raw() {
        &&& m.data.len() > 0
        &&& 1 <= m.width <= 65535
        &&& 1 <= m.height <= 65535
    } else {
        m.data.len() > 0
    }
}

/// A packed buffer of `m`-byte pixels over a `w` by `h` grid: its length
/// is a multiple of `m`, and dividing recovers the pixel count.
proof fn lemma_packed_len(len: int, w: int, h: int, m: int)
    requires
        len == m * w * h,
        0 <= w,
        0 <= h,
        0 < m,
    ensures
        len % m == 0,
        len / m == w * h,
        len == m * (w * h),
{
    assert(len == (w * h) * m && len == m * (w * h)) by (nonlinear_arith)
        requires
            len == m * w * h,
    ;
    vstd::arithmetic::div_mod::lemma_mod_multiples_basic(w * h, m);
    vstd::arithmetic::div_mod::lemma_div_multiples_vanish(w * h, m);
}

fn target_dims(width: u32, height: u32) -> (r: (u32, u32))
    ensures
        r == spec_target_dims(width, height),
{
    if width > DISPLAY_TARGET_WIDTH || height > DISPLAY_TARGET_HEIGHT {
        (DISPLAY_TARGET_WIDTH, DISPLAY_TARGET_HEIGHT)
    } else {
        (width, height)
    }
}

/// Encodes one captured frame into the display-ready result.
///
/// A frame already in an encoded format is passed through unchanged —
/// the output bytes are identical to the input bytes. A raw frame is
/// bounded to the display target (oversized input is downsampled to
/// exactly 800 x 450) and encoded; an empty or unrepresentable frame is
/// rejected, counted by the caller, and never fatal.
pub fn encode_frame(frame: &CapturedFrame) -> (r: Result<ProcessedFrame, EncodeError>)
    requires
        frame.wf(),
        frame.format.spec_is_raw() ==> 4 * frame.width * frame.height <= usize::MAX,
    ensures
        r.is_ok() == spec_encodable(frame@),
        r matches Ok(p) ==> {
            &&& p.timestamp_ms == frame.timestamp_ms
            &&& p.format == FrameFormat::Jpeg
            &&& p.processing_method == ProcessingMethod::CpuCopy
            &&& (!frame.format.spec_is_raw() ==> p.data@ == frame.data@ && p.width == frame.width
                && p.height == frame.height)
            &&& (frame.format.spec_is_raw() ==> (p.width, p.height) == spec_target_dims(
                frame.width,
                frame.height,
            ) && p.data@ == spec_encoded_bytes(frame@))
        },
        r matches Err(e) ==> {
            &&& (e == EncodeError::EmptyFrame ==> frame.data@.len() == 0)
            &&& (e == EncodeError::UnsupportedDimensions ==> frame.format.spec_is_raw() && (
            frame.width == 0 || frame.height == 0 || frame.width > 65535 || frame.height > 65535))
        },
{
    if frame.data.len() == 0 {
        return Err(EncodeError::EmptyFrame);
    }
    if !frame.format.is_raw() {
        return Ok(
            ProcessedFrame {
                data: frame.data.clone(),
                width: frame.width,
                height: frame.height,
                format: FrameFormat::Jpeg,
                timestamp_ms: frame.timestamp_ms,
                processing_method: ProcessingMethod::CpuCopy,
            },
        );
    }
    if frame.width == 0 || frame.height == 0 || frame.width > 65535 || frame.height > 65535 {
        return Err(EncodeError::UnsupportedDimensions);
    }
    let ghost w = frame.width as int;
    let ghost h = frame.height as int;
    proof {
        let m = frame.format.spec_bytes_per_pixel() as int;
        lemma_packed_len(frame.data@.len() as int, w, h, m);
        assert(4 * (w * h) <= usize::MAX) by (nonlinear_arith)
            requires
                4 * w * h <= usize::MAX,
                0 <= w,
                0 <= h,
        ;
    }
    let rgba: Vec<u8> = match frame.format {
        FrameFormat::Bgra8 => bgra_to_rgba(&frame.data),
        FrameFormat::Rgba8 => frame.data.clone(),
        FrameFormat::Rgb8 => rgb_to_rgba(&frame.data),
        FrameFormat::Jpeg => Vec::new(),
    };
    proof {
        assert(rgba@.len() == 4 * w * h) by (nonlinear_arith)
            requires
                rgba@.len() == 4 * (w * h) || rgba@.len() == 4 * w * h,
                0 <= w,
                0 <= h,
        ;
    }
    let (tw, th) = target_dims(frame.width, frame.height);
    let scaled: Vec<u8> = if tw == frame.width && th == frame.height {
        rgba
    } else {
        assert(tw == DISPLAY_TARGET_WIDTH && th == DISPLAY_TARGET_HEIGHT);
        resize_rgba(&rgba, frame.width, frame.height, tw, th)
    };
    proof {
        lemma_packed_len(scaled@.len() as int, tw as int, th as int, 4);
    }
    let rgb = rgba_to_rgb(&scaled);
    proof {
        assert(rgb@.len() == 3 * (tw as int) * (th as int)) by (nonlinear_arith)
            requires
                4 * rgb@.len() == 3 * scaled@.len(),
                scaled@.len() == 4 * (tw as int) * (th as int),
                0 <= tw as int,
                0 <= th as int,
        ;
    }
    let data = encode_jpeg_rgb(&rgb, tw, th, ENCODE_QUALITY);
    Ok(
        ProcessedFrame {
            data,
            width: tw,
            height: th,
            format: FrameFormat::Jpeg,
            timestamp_ms: frame.timestamp_ms,
            processing_method: ProcessingMethod::CpuCopy,
        },
    )
}

} // verus!
