use wgpu::{CompositeAlphaMode, PresentMode, TextureFormat};
use window_shell::color::ClearColor;
use window_shell::event::{Key, WindowEvent};
use window_shell::geometry::Size;
use window_shell::state::{ContextError, State};
use window_shell::surface::{SurfaceCaps, Usage};

fn adapter_caps() -> SurfaceCaps {
    SurfaceCaps {
        formats: vec![TextureFormat::Bgra8Unorm, TextureFormat::Bgra8UnormSrgb],
        present_modes: vec![PresentMode::Fifo, PresentMode::Immediate],
        alpha_modes: vec![CompositeAlphaMode::Opaque],
    }
}

fn unusable_caps() -> SurfaceCaps {
    SurfaceCaps { formats: vec![], present_modes: vec![], alpha_modes: vec![] }
}

fn context(width: u32, height: u32) -> State {
    State::new(Size::new(width, height), &adapter_caps()).unwrap()
}

/// Red, green, blue and alpha of a clear colour as channel intensities.
fn channels(color: ClearColor) -> [f64; 4] {
    match color {
        ClearColor::Black => [0.0, 0.0, 0.0, 1.0],
        ClearColor::Cursor { x, y, width, height } => {
            [f64::from_bits(x) / width as f64, f64::from_bits(y) / height as f64, 1.0, 1.0]
        }
    }
}

fn moved(x: f64, y: f64) -> WindowEvent {
    WindowEvent::CursorMoved { x: x.to_bits(), y: y.to_bits() }
}

#[test]
fn construction_fails_for_zero_width() {
    assert_eq!(State::new(Size::new(0, 600), &adapter_caps()), Err(ContextError::ZeroSize));
}

#[test]
fn construction_fails_for_zero_height() {
    assert_eq!(State::new(Size::new(800, 0), &adapter_caps()), Err(ContextError::ZeroSize));
}

#[test]
fn construction_fails_for_zero_extent_whatever_the_adapter_supports() {
    assert_eq!(State::new(Size::new(0, 0), &unusable_caps()), Err(ContextError::ZeroSize));
    assert_eq!(State::new(Size::new(0, 0), &adapter_caps()), Err(ContextError::ZeroSize));
}

#[test]
fn new_context_is_configured_for_the_window_and_clears_to_black() {
    let state = context(800, 600);
    assert_eq!(state.size(), Size::new(800, 600));
    let config = state.surface_config();
    assert_eq!(config.usage, Usage::RenderAttachment);
    assert_eq!(config.format, TextureFormat::Bgra8UnormSrgb);
    assert_eq!(config.width, 800);
    assert_eq!(config.height, 600);
    assert_eq!(config.present_mode, PresentMode::Fifo);
    assert_eq!(config.alpha_mode, CompositeAlphaMode::Opaque);
    assert_eq!(config.frame_latency, 2);
    assert_eq!(state.clear_color(), ClearColor::Black);
    assert_eq!(channels(state.clear_color()), [0.0, 0.0, 0.0, 1.0]);
}

#[test]
fn resize_to_a_new_extent_reconfigures() {
    let mut state = context(800, 600);
    let before = state.surface_config();
    assert!(state.resize(Size::new(1024, 768)));
    assert_eq!(state.size(), Size::new(1024, 768));
    let after = state.surface_config();
    assert_eq!(after.width, 1024);
    assert_eq!(after.height, 768);
    assert_eq!(after.format, before.format);
    assert_eq!(after.present_mode, before.present_mode);
    assert_eq!(after.alpha_mode, before.alpha_mode);
    assert_eq!(after.frame_latency, before.frame_latency);
    assert_eq!(after.usage, before.usage);
}

#[test]
fn resize_reconfigures_when_only_one_dimension_changes() {
    let mut state = context(800, 600);
    assert!(state.resize(Size::new(800, 601)));
    assert_eq!(state.size(), Size::new(800, 601));
    assert!(state.resize(Size::new(799, 601)));
    assert_eq!(state.size(), Size::new(799, 601));
    assert_eq!(state.surface_config().width, 799);
    assert_eq!(state.surface_config().height, 601);
}

#[test]
fn resize_to_the_same_extent_changes_nothing() {
    let mut state = context(800, 600);
    let before = state;
    assert!(!state.resize(Size::new(800, 600)));
    assert_eq!(state, before);
}

#[test]
fn resize_to_an_empty_extent_changes_nothing() {
    let mut state = context(800, 600);
    let before = state;
    assert!(!state.resize(Size::new(0, 0)));
    assert_eq!(state, before);
    assert!(!state.resize(Size::new(0, 768)));
    assert_eq!(state, before);
    assert!(!state.resize(Size::new(1024, 0)));
    assert_eq!(state, before);
}

#[test]
fn resize_twice_to_one_extent_reconfigures_once() {
    let mut state = context(800, 600);
    assert!(state.resize(Size::new(640, 480)));
    let after_first = state;
    assert!(!state.resize(Size::new(640, 480)));
    assert_eq!(state, after_first);
}

#[test]
fn resize_through_zero_leaves_surface_at_last_extent() {
    let mut state = context(800, 600);
    assert!(!state.resize(Size::new(0, 0)));
    assert_eq!(state.surface_config().width, 800);
    assert_eq!(state.surface_config().height, 600);
    assert!(state.resize(Size::new(1024, 768)));
    assert_eq!(state.size(), Size::new(1024, 768));
    assert_eq!(state.surface_config().width, 1024);
    assert_eq!(state.surface_config().height, 768);
}

#[test]
fn cursor_movement_is_handled_and_sets_the_colour() {
    let mut state = context(800, 600);
    assert!(state.input(&moved(200.0, 450.0)));
    assert_eq!(
        state.clear_color(),
        ClearColor::Cursor {
            x: 200.0f64.to_bits(),
            y: 450.0f64.to_bits(),
            width: 800,
            height: 600,
        }
    );
    assert_eq!(channels(state.clear_color()), [0.25, 0.75, 1.0, 1.0]);
    assert_eq!(state.size(), Size::new(800, 600));
    assert_eq!(state.surface_config(), context(800, 600).surface_config());
}

#[test]
fn cursor_at_the_centre_gives_half_red_and_half_green() {
    let mut state = context(800, 600);
    assert!(state.input(&moved(400.0, 300.0)));
    let [r, g, b, a] = channels(state.clear_color());
    assert!((r - 0.5).abs() < 1e-12);
    assert!((g - 0.5).abs() < 1e-12);
    assert_eq!(b, 1.0);
    assert_eq!(a, 1.0);
}

#[test]
fn cursor_at_the_corners_gives_the_extremes() {
    let mut state = context(800, 600);
    assert!(state.input(&moved(0.0, 0.0)));
    assert_eq!(channels(state.clear_color()), [0.0, 0.0, 1.0, 1.0]);
    assert!(state.input(&moved(800.0, 600.0)));
    assert_eq!(channels(state.clear_color()), [1.0, 1.0, 1.0, 1.0]);
}

#[test]
fn colour_keeps_the_extent_of_the_moment_the_cursor_moved() {
    let mut state = context(800, 600);
    assert!(state.input(&moved(400.0, 300.0)));
    let before = state.clear_color();
    assert!(state.resize(Size::new(1600, 1200)));
    assert_eq!(state.clear_color(), before);
    assert!(state.input(&moved(400.0, 300.0)));
    assert_eq!(channels(state.clear_color()), [0.25, 0.25, 1.0, 1.0]);
}

#[test]
fn other_events_are_not_handled_by_the_context() {
    let events = [
        WindowEvent::CloseRequested,
        WindowEvent::KeyboardInput { pressed: true, key: Key::Escape },
        WindowEvent::KeyboardInput { pressed: false, key: Key::Other },
        WindowEvent::Resized(Size::new(10, 10)),
        WindowEvent::RedrawRequested,
        WindowEvent::Other,
    ];
    for event in events {
        let mut state = context(800, 600);
        let before = state;
        assert!(!state.input(&event));
        assert_eq!(state, before);
    }
}

#[test]
fn update_changes_nothing() {
    let mut state = context(800, 600);
    state.input(&moved(1.0, 2.0));
    let before = state;
    state.update();
    assert_eq!(state, before);
}
