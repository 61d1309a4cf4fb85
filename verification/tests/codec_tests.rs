use capture_engine::codec::{
    DISPLAY_TARGET_HEIGHT, DISPLAY_TARGET_WIDTH, EncodeError, encode_frame,
};
use capture_engine::frame::{CaptureSource, CapturedFrame, FrameFormat};
use capture_engine::pixels::{bgra_to_rgba, copy_rows, rgb_to_rgba, rgba_to_rgb};
use image::GenericImageView;

fn raw_frame(width: u32, height: u32, format: FrameFormat, fill: u8) -> CapturedFrame {
    let bpp = match format {
        FrameFormat::Rgb8 => 3usize,
        _ => 4usize,
    };
    CapturedFrame {
        data: vec![fill; bpp * width as usize * height as usize],
        width,
        height,
        format,
        timestamp_ms: 7,
        source: CaptureSource::DxgiDesktopDuplication,
    }
}

#[test]
fn encoded_frame_passes_through_byte_identical() {
    let payload = vec![0xFFu8, 0xD8, 0xFF, 0xE0, 1, 2, 3, 4];
    let frame = CapturedFrame {
        data: payload.clone(),
        width: 123,
        height: 45,
        format: FrameFormat::Jpeg,
        timestamp_ms: 99,
        source: CaptureSource::WindowsGraphicsCapture,
    };
    let out = encode_frame(&frame).unwrap();
    assert_eq!(out.data, payload);
    assert_eq!(out.width, 123);
    assert_eq!(out.height, 45);
    assert_eq!(out.timestamp_ms, 99);
}

#[test]
fn oversized_raw_frame_is_bounded_to_display_target() {
    let frame = raw_frame(3840, 2160, FrameFormat::Bgra8, 0x40);
    let out = encode_frame(&frame).unwrap();
    assert_eq!(out.width, DISPLAY_TARGET_WIDTH);
    assert_eq!(out.height, DISPLAY_TARGET_HEIGHT);
    assert_eq!(out.format, FrameFormat::Jpeg);
    // The encoded bytes decode to exactly the display target dimensions.
    let decoded = image::load_from_memory(&out.data).unwrap();
    assert_eq!(decoded.dimensions(), (800, 450));
}

#[test]
fn small_raw_frame_keeps_its_dimensions() {
    let frame = raw_frame(64, 48, FrameFormat::Rgba8, 0x10);
    let out = encode_frame(&frame).unwrap();
    assert_eq!(out.width, 64);
    assert_eq!(out.height, 48);
    let decoded = image::load_from_memory(&out.data).unwrap();
    assert_eq!(decoded.dimensions(), (64, 48));
    // The encode is real work, not the input handed back unchanged.
    assert_ne!(out.data, frame.data);
}

#[test]
fn rgb_frame_encodes() {
    let frame = raw_frame(32, 16, FrameFormat::Rgb8, 0x80);
    let out = encode_frame(&frame).unwrap();
    assert_eq!(out.width, 32);
    assert_eq!(out.height, 16);
    let decoded = image::load_from_memory(&out.data).unwrap();
    assert_eq!(decoded.dimensions(), (32, 16));
}

#[test]
fn exact_boundary_frame_is_not_resized() {
    let frame = raw_frame(800, 450, FrameFormat::Rgba8, 0x33);
    let out = encode_frame(&frame).unwrap();
    assert_eq!((out.width, out.height), (800, 450));
}

#[test]
fn one_oversized_dimension_triggers_the_target() {
    let frame = raw_frame(801, 100, FrameFormat::Rgba8, 0x21);
    let out = encode_frame(&frame).unwrap();
    assert_eq!((out.width, out.height), (800, 450));
}

#[test]
fn empty_frame_is_rejected() {
    let frame = CapturedFrame {
        data: Vec::new(),
        width: 0,
        height: 0,
        format: FrameFormat::Jpeg,
        timestamp_ms: 0,
        source: CaptureSource::WindowsGraphicsCapture,
    };
    assert_eq!(encode_frame(&frame).unwrap_err(), EncodeError::EmptyFrame);
}

#[test]
fn encoded_colors_survive_the_swizzle() {
    // A solid red BGRA frame: blue=0, green=0, red=255. If the wrapper
    // handed its argument through unchanged, or the swizzle were wrong,
    // the decoded pixel would not be red.
    let mut data = Vec::new();
    for _ in 0..64 * 64 {
        data.extend_from_slice(&[0u8, 0u8, 255u8, 255u8]);
    }
    let frame = CapturedFrame {
        data,
        width: 64,
        height: 64,
        format: FrameFormat::Bgra8,
        timestamp_ms: 0,
        source: CaptureSource::DxgiDesktopDuplication,
    };
    let out = encode_frame(&frame).unwrap();
    let decoded = image::load_from_memory(&out.data).unwrap().to_rgb8();
    let px = decoded.get_pixel(32, 32);
    assert!(px.0[0] > 200, "red channel should dominate, got {:?}", px);
    assert!(px.0[1] < 60 && px.0[2] < 60, "green/blue should be low, got {:?}", px);
}

#[test]
fn bgra_to_rgba_swaps_blue_and_red() {
    let src = vec![1u8, 2, 3, 4, 10, 20, 30, 40];
    let out = bgra_to_rgba(&src);
    assert_eq!(out, vec![3, 2, 1, 4, 30, 20, 10, 40]);
}

#[test]
fn rgba_to_rgb_drops_alpha() {
    let src = vec![1u8, 2, 3, 4, 10, 20, 30, 40];
    assert_eq!(rgba_to_rgb(&src), vec![1, 2, 3, 10, 20, 30]);
}

#[test]
fn rgb_to_rgba_adds_opaque_alpha() {
    let src = vec![1u8, 2, 3, 10, 20, 30];
    assert_eq!(rgb_to_rgba(&src), vec![1, 2, 3, 255, 10, 20, 30, 255]);
}

#[test]
fn copy_rows_respects_row_pitch() {
    // Two rows of one pixel (4 bytes), with a pitch of 6: two padding
    // bytes per row must be skipped.
    let mapped = vec![1u8, 2, 3, 4, 99, 99, 5, 6, 7, 8, 99, 99];
    let out = copy_rows(&mapped, 1, 2, 6);
    assert_eq!(out, vec![1, 2, 3, 4, 5, 6, 7, 8]);
}

#[test]
fn unencodable_dimensions_are_rejected() {
    let frame = CapturedFrame {
        data: vec![0u8; 4 * 70000],
        width: 70000,
        height: 1,
        format: FrameFormat::Rgba8,
        timestamp_ms: 0,
        source: CaptureSource::DxgiDesktopDuplication,
    };
    assert_eq!(encode_frame(&frame).unwrap_err(), EncodeError::UnsupportedDimensions);
}
