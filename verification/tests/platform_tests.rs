use capture_engine::input::{
    FocusState, Input, InputKind, InputReceiver, KeyKind, KeyState, MouseKind,
};
use capture_engine::platform::{
    Capture, ConvertedCoordinates, CoordinateRelative, Error, Handle, HandleCell, HandleKind,
    Window, WindowGeometry, WindowRecord, WindowsCaptureKind, find_window_by_title,
    is_class_matched, list_window_handles, query_capture_name_window_pairs, query_handle,
};
use capture_engine::texture::{MinimapComputeShader, Texture, TextureProcessor};
use capture_engine::frame::ProcessingMethod;

fn record(id: u64, title: &str, class: &str) -> WindowRecord {
    WindowRecord {
        id,
        title: title.to_string(),
        class_name: class.to_string(),
        visible: true,
        cloaked: false,
        disabled: false,
        tool_window: false,
    }
}

#[test]
fn enumeration_filters_unlistable_windows() {
    let mut hidden = record(1, "hidden", "HiddenWnd");
    hidden.visible = false;
    let mut cloaked = record(2, "cloaked", "CloakedWnd");
    cloaked.cloaked = true;
    let mut disabled = record(3, "disabled", "DisabledWnd");
    disabled.disabled = true;
    let mut tool = record(4, "tool", "ToolWnd");
    tool.tool_window = true;
    let untitled = record(5, "", "UntitledWnd");
    let good = record(6, "Game", "UnityWndClass");

    let records = vec![hidden, cloaked, disabled, tool, untitled, good];
    let titles = list_window_handles(&records);
    assert_eq!(titles, vec!["Game".to_string()]);

    let pairs = query_capture_name_window_pairs(&records).unwrap();
    assert_eq!(pairs.len(), 1);
    assert_eq!(pairs[0].0, "Game");
}

#[test]
fn dynamic_handles_resolve_by_class_prefix() {
    let records = vec![record(10, "a", "OtherClass"), record(11, "b", "UnityWndClassExtra")];
    assert_eq!(query_handle(&records, "UnityWndClass"), Some(11));
    assert_eq!(query_handle(&records, "Absent"), None);
    assert!(is_class_matched(&records[1], "UnityWndClass"));
    assert!(!is_class_matched(&records[0], "UnityWndClass"));

    let fixed = Handle::new(HandleKind::Fixed(42));
    assert_eq!(fixed.as_inner(&records), Some(42));
    let dynamic = Handle::new(HandleKind::Dynamic("Other"));
    assert_eq!(dynamic.as_inner(&records), Some(10));
}

#[test]
fn handle_cell_caches_and_revalidates() {
    let records = vec![record(7, "w", "UnityWndClass")];
    let mut cell = HandleCell::new(Handle::new(HandleKind::Dynamic("UnityWndClass")));
    assert_eq!(cell.as_inner(&records), Some(7));
    // Same enumeration: the cached handle is still valid.
    assert_eq!(cell.as_inner(&records), Some(7));
    // The window of the cached handle changed class: cache is dropped.
    let changed = vec![record(7, "w", "SomethingElse")];
    assert_eq!(cell.as_inner(&changed), None);
    // The next read resolves afresh.
    assert_eq!(cell.as_inner(&records), Some(7));
}

#[test]
fn convert_coordinate_needs_geometry() {
    let w = Window::new("UnityWndClass");
    assert_eq!(w.convert_coordinate(1, 2, CoordinateRelative::Window).unwrap_err(),
        Error::WindowNotFound);
}

#[test]
fn convert_coordinate_window_and_monitor() {
    let mut w = Window::from_id(3);
    w.set_geometry(WindowGeometry {
        client_width: 800,
        client_height: 600,
        client_origin_x: 100,
        client_origin_y: 50,
        monitor_width: 1920,
        monitor_height: 1080,
    });
    let c = w.convert_coordinate(10, 20, CoordinateRelative::Window).unwrap();
    assert_eq!(c, ConvertedCoordinates { width: 800, height: 600, x: 10, y: 20 });
    let m = w.convert_coordinate(10, 20, CoordinateRelative::Monitor).unwrap();
    assert_eq!(m, ConvertedCoordinates { width: 1920, height: 1080, x: 110, y: 70 });
}

#[test]
fn convert_coordinate_overflow_is_an_error() {
    let mut w = Window::from_id(3);
    w.set_geometry(WindowGeometry {
        client_width: 1,
        client_height: 1,
        client_origin_x: i32::MAX,
        client_origin_y: 0,
        monitor_width: 1,
        monitor_height: 1,
    });
    assert_eq!(w.convert_coordinate(1, 0, CoordinateRelative::Monitor).unwrap_err(),
        Error::WindowInvalidSize);
}

#[test]
fn focused_input_requires_target_foreground_and_focus() {
    let w = Window::new("UnityWndClass");
    let input = Input::new(w, InputKind::Focused).unwrap();
    let good = FocusState { target_is_foreground: true, overlaps_target: false, focused: true };
    assert!(input.send_key(KeyKind::A, good).is_ok());
    assert!(input.send_mouse(1, 2, MouseKind::Click, good).is_ok());
    let unfocused = FocusState { target_is_foreground: true, overlaps_target: false, focused: false };
    assert_eq!(input.send_key(KeyKind::A, unfocused).unwrap_err(), Error::KeyNotSent);
    assert_eq!(input.send_mouse(1, 2, MouseKind::Move, unfocused).unwrap_err(),
        Error::MouseNotSent);
    let wrong_window =
        FocusState { target_is_foreground: false, overlaps_target: true, focused: true };
    assert_eq!(input.send_key_down(KeyKind::B, wrong_window).unwrap_err(), Error::KeyNotSent);
}

#[test]
fn foreground_input_requires_overlap_without_target_focus() {
    let w = Window::new("UnityWndClass");
    let input = Input::new(w, InputKind::Foreground).unwrap();
    let good = FocusState { target_is_foreground: false, overlaps_target: true, focused: true };
    assert!(input.send_key_up(KeyKind::Z, good).is_ok());
    let target_front =
        FocusState { target_is_foreground: true, overlaps_target: true, focused: true };
    assert_eq!(input.send_key(KeyKind::Z, target_front).unwrap_err(), Error::KeyNotSent);
}

#[test]
fn key_state_reflects_the_reported_flag() {
    let w = Window::new("UnityWndClass");
    let input = Input::new(w, InputKind::Focused).unwrap();
    assert_eq!(input.key_state(KeyKind::Space, true).unwrap(), KeyState::Pressed);
    assert_eq!(input.key_state(KeyKind::Space, false).unwrap(), KeyState::Released);
}

#[test]
fn receiver_yields_strokes_in_arrival_order() {
    let w = Window::new("UnityWndClass");
    let mut rx = InputReceiver::new(w, InputKind::Focused).unwrap();
    assert_eq!(rx.try_recv().unwrap_err(), Error::KeyNotReceived);
    rx.push_key(KeyKind::A);
    rx.push_key(KeyKind::B);
    assert_eq!(rx.try_recv().unwrap(), KeyKind::A);
    assert_eq!(rx.try_recv().unwrap(), KeyKind::B);
    assert_eq!(rx.try_recv().unwrap_err(), Error::KeyNotReceived);
}

#[test]
fn extractor_prefers_gpu_and_falls_back_to_cpu() {
    let mut processor = TextureProcessor::new();
    let caps = processor.get_capabilities();
    assert!(caps.supports_cpu && caps.supports_gpu_optimized);
    assert!(!caps.supports_gpu_compute && !caps.supports_gpu_shader);

    let gpu_surface = Texture {
        mapped: vec![1, 2, 3, 4, 0, 0, 5, 6, 7, 8, 0, 0],
        width: 1,
        height: 2,
        row_pitch: 6,
        gpu_default_usage: true,
        map_ok: true,
        timestamp_ms: 3,
    };
    let f = processor.extract_frame_data(&gpu_surface).unwrap();
    assert_eq!(f.processing_method, ProcessingMethod::GpuOptimized);
    assert_eq!(f.data, vec![1, 2, 3, 4, 5, 6, 7, 8]);
    assert_eq!((f.width, f.height), (1, 2));

    // A surface without default GPU usage takes the CPU path.
    let mut cpu_surface = Texture {
        mapped: vec![1, 2, 3, 4, 0, 0, 5, 6, 7, 8, 0, 0],
        width: 1,
        height: 2,
        row_pitch: 6,
        gpu_default_usage: false,
        map_ok: true,
        timestamp_ms: 3,
    };
    let f = processor.extract_frame_data(&cpu_surface).unwrap();
    assert_eq!(f.processing_method, ProcessingMethod::CpuCopy);
    assert_eq!(f.data, vec![1, 2, 3, 4, 5, 6, 7, 8]);

    // With GPU processing disabled, even a GPU-capable surface goes CPU.
    processor.set_gpu_processing(false);
    cpu_surface.gpu_default_usage = true;
    let f = processor.extract_frame_data(&cpu_surface).unwrap();
    assert_eq!(f.processing_method, ProcessingMethod::CpuCopy);

    // A surface that cannot be mapped is a per-frame error.
    cpu_surface.map_ok = false;
    assert!(processor.extract_frame_data(&cpu_surface).is_err());
}

#[test]
fn compute_shader_path_is_unavailable() {
    let shader = MinimapComputeShader::new().unwrap();
    let surface = Texture {
        mapped: vec![0; 4],
        width: 1,
        height: 1,
        row_pitch: 4,
        gpu_default_usage: true,
        map_ok: true,
        timestamp_ms: 0,
    };
    assert!(shader.process(&surface).is_err());
}

#[test]
fn backend_switch_replaces_never_updates_in_place() {
    let w = Window::new("UnityWndClass");
    let mut capture = Capture::new(w).unwrap();
    assert_eq!(capture.window().unwrap(), w);
    capture.windows_capture_kind(WindowsCaptureKind::Wgc(100)).unwrap();
    capture.windows_capture_kind(WindowsCaptureKind::BitBltArea).unwrap();
    // Retargeting keeps the kind but constructs a fresh backend.
    let other = Window::from_id(9);
    capture.set_window(other).unwrap();
    assert_eq!(capture.window().unwrap(), other);
}

#[test]
fn titles_resolve_to_the_first_listable_match() {
    let mut hidden = record(20, "Game", "HiddenWnd");
    hidden.visible = false;
    let records = vec![hidden, record(21, "Game", "UnityWndClass"), record(22, "Game", "Later")];
    let w = find_window_by_title(&records, &"Game".to_string()).unwrap();
    // The hidden window is skipped; the first listable match wins.
    let other = Window::from_id(21);
    assert_eq!(w, other);
    assert!(find_window_by_title(&records, &"Missing".to_string()).is_none());
}
