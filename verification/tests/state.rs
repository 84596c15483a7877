use std::time::Duration;

use azul_window::options::{
    MonitorHandle, MouseMode, RendererType, UpdateBehaviour, UpdateMode, WindowCreateOptions,
    WindowMonitorTarget,
};
use azul_window::reconcile::FrameEventInfo;
use azul_window::scalar::{ColorF, FloatBits, LayoutSize, ONE_BITS, ZERO_BITS};
use azul_window::window_state::{
    KeyboardState, MouseCursor, MouseState, WindowPosition, WindowSize, WindowState,
    DEFAULT_HEIGHT, DEFAULT_WIDTH,
};

#[test]
fn bit_patterns_stand_for_the_numbers() {
    assert_eq!(f32::from_bits(ZERO_BITS), 0.0);
    assert_eq!(f32::from_bits(ONE_BITS), 1.0);
    assert_eq!(FloatBits::zero().to_bits(), 0.0f32.to_bits());
    assert_eq!(FloatBits::one().to_bits(), 1.0f32.to_bits());
    let x = 1366.0f32 / 1.25;
    assert_eq!(f32::from_bits(FloatBits::from_bits(x.to_bits()).to_bits()), x);
    assert_eq!(FloatBits::from_bits(0x4049_0fdb).bits, 0x4049_0fdb);
}

#[test]
fn colour_and_size_keep_their_parts() {
    let c = ColorF::new(
        FloatBits::from_bits(1),
        FloatBits::from_bits(2),
        FloatBits::from_bits(3),
        FloatBits::from_bits(4),
    );
    assert_eq!((c.r.bits, c.g.bits, c.b.bits, c.a.bits), (1, 2, 3, 4));
    let s = LayoutSize::new(FloatBits::from_bits(5), FloatBits::from_bits(6));
    assert_eq!((s.width.bits, s.height.bits), (5, 6));
}

#[test]
fn default_size_is_800_by_600_unbounded() {
    let size = WindowSize::default();
    assert_eq!(size.width, 800);
    assert_eq!(size.height, 600);
    assert_eq!(DEFAULT_WIDTH, 800);
    assert_eq!(DEFAULT_HEIGHT, 600);
    assert_eq!(f32::from_bits(size.hidpi_factor.bits), 1.0);
    assert_eq!(size.min_dimensions, None);
    assert_eq!(size.max_dimensions, None);
}

#[test]
fn default_mouse_and_keyboard_are_at_rest() {
    let mouse = MouseState::default();
    assert_eq!(mouse.mouse_cursor_type, MouseCursor::Default);
    assert_eq!(MouseCursor::default(), MouseCursor::Default);
    assert_eq!(mouse.cursor_pos, None);
    assert!(!mouse.left_down && !mouse.right_down && !mouse.middle_down);
    assert_eq!(mouse.scroll_x.bits, 0);
    assert_eq!(mouse.scroll_y.bits, 0);
    let keyboard = KeyboardState::default();
    assert!(keyboard.modifiers.is_empty());
    assert!(keyboard.hidden_keys.is_empty());
    assert!(keyboard.keys.is_empty());
}

#[test]
fn default_state_is_a_visible_decorated_window() {
    let state = WindowState::default();
    assert_eq!(state.title, "Azul App");
    assert_eq!(state.size, WindowSize::default());
    assert_eq!(state.position, None);
    assert!(!state.is_maximized);
    assert!(!state.is_fullscreen);
    assert!(state.has_decorations);
    assert!(state.is_visible);
    assert!(!state.is_transparent);
    assert_eq!(state.mouse_state, MouseState::default());
    assert_eq!(state.keyboard_state, KeyboardState::default());
}

#[test]
fn cloned_state_is_equal_and_independent() {
    let mut state = WindowState::default();
    state.title = "One".to_string();
    state.position = Some(WindowPosition { x: 10, y: 20 });
    state.keyboard_state.keys.push('q');
    let copy = state.clone();
    assert_eq!(copy, state);
    state.title.push('!');
    assert_eq!(copy.title, "One");
}

#[test]
fn option_defaults() {
    assert_eq!(RendererType::default(), RendererType::Default);
    assert_eq!(UpdateBehaviour::default(), UpdateBehaviour::UpdateOnHover);
    assert_eq!(UpdateMode::default(), UpdateMode::Retained);
    assert_eq!(MouseMode::default(), MouseMode::Normal);
    assert_eq!(WindowMonitorTarget::default(), WindowMonitorTarget::Primary);
}

#[test]
fn default_options() {
    let options = WindowCreateOptions::default();
    assert_eq!(options.state, WindowState::default());
    let one = FloatBits::from_bits(1.0f32.to_bits());
    assert_eq!(options.background, ColorF::new(one, one, one, one));
    assert_eq!(options.clear_stencil, None);
    assert_eq!(options.clear_depth, None);
    assert_eq!(options.update_mode, UpdateMode::Retained);
    assert_eq!(options.monitor, WindowMonitorTarget::Primary);
    assert_eq!(options.mouse_mode, MouseMode::Normal);
    assert_eq!(options.update_behaviour, UpdateBehaviour::UpdateOnHover);
    assert_eq!(options.renderer_type, RendererType::Default);
}

#[test]
fn cloned_options_are_equal() {
    let mut options = WindowCreateOptions::default();
    options.state.title = "Viewer".to_string();
    options.clear_stencil = Some(-1);
    options.clear_depth = Some(FloatBits::from_bits(0.5f32.to_bits()));
    options.update_mode = UpdateMode::FixedUpdate(Duration::from_millis(16));
    options.monitor = WindowMonitorTarget::Custom(MonitorHandle { index: 2 });
    options.mouse_mode = MouseMode::DirectInput;
    options.update_behaviour = UpdateBehaviour::UpdateAlways;
    options.renderer_type = RendererType::Software;
    assert_eq!(options.clone(), options);
    assert_ne!(options, WindowCreateOptions::default());
}

#[test]
fn monitor_target_names_its_variant_only() {
    assert_eq!(WindowMonitorTarget::Primary.to_debug_string(), "WindowMonitorTarget::Primary");
    assert_eq!(
        WindowMonitorTarget::Custom(MonitorHandle { index: 0 }).to_debug_string(),
        "WindowMonitorTarget::Custom(_)"
    );
    assert_eq!(
        WindowMonitorTarget::Custom(MonitorHandle { index: 9 }).to_debug_string(),
        "WindowMonitorTarget::Custom(_)"
    );
}

#[test]
fn resize_report_is_stored_and_marks_the_frame() {
    let mut state = WindowState::default();
    let mut info = FrameEventInfo { should_redraw_window: false, new_window_size: None, new_dpi_factor: None };
    info.new_window_size = Some((1024, 768));
    let before = state.clone();
    state.update_from_external_window_state(&mut info);
    assert_eq!(state.size.width, 1024);
    assert_eq!(state.size.height, 768);
    assert_eq!(state.size.hidpi_factor, before.size.hidpi_factor);
    assert!(info.should_redraw_window);
    assert_eq!(info.new_window_size, Some((1024, 768)));
    let mut expected = before;
    expected.size.width = 1024;
    expected.size.height = 768;
    assert_eq!(state, expected);
}

#[test]
fn scale_report_is_stored_and_marks_the_frame() {
    let mut state = WindowState::default();
    let mut info = FrameEventInfo { should_redraw_window: false, new_window_size: None, new_dpi_factor: None };
    info.new_dpi_factor = Some(FloatBits::from_bits(2.0f32.to_bits()));
    state.update_from_external_window_state(&mut info);
    assert_eq!(f32::from_bits(state.size.hidpi_factor.bits), 2.0);
    assert_eq!((state.size.width, state.size.height), (800, 600));
    assert!(info.should_redraw_window);
}

#[test]
fn empty_report_changes_nothing() {
    let mut state = WindowState::default();
    state.title = "Quiet".to_string();
    let before = state.clone();
    let mut info = FrameEventInfo { should_redraw_window: false, new_window_size: None, new_dpi_factor: None };
    assert!(!info.should_redraw_window);
    state.update_from_external_window_state(&mut info);
    assert_eq!(state, before);
    assert!(!info.should_redraw_window);

    let mut marked = FrameEventInfo { should_redraw_window: false, new_window_size: None, new_dpi_factor: None };
    marked.should_redraw_window = true;
    state.update_from_external_window_state(&mut marked);
    assert_eq!(state, before);
    assert!(marked.should_redraw_window);
}

#[test]
fn size_and_scale_reported_together() {
    let mut state = WindowState::default();
    let mut info = FrameEventInfo {
        should_redraw_window: false,
        new_window_size: Some((0, u32::MAX)),
        new_dpi_factor: Some(FloatBits::from_bits(1.25f32.to_bits())),
    };
    state.update_from_external_window_state(&mut info);
    assert_eq!((state.size.width, state.size.height), (0, u32::MAX));
    assert_eq!(f32::from_bits(state.size.hidpi_factor.bits), 1.25);
    assert!(info.should_redraw_window);
}

#[test]
fn clearing_scroll_resets_both_directions_only() {
    let mut state = WindowState::default();
    state.mouse_state.scroll_x = FloatBits::from_bits(3.5f32.to_bits());
    state.mouse_state.scroll_y = FloatBits::from_bits((-0.25f32).to_bits());
    state.mouse_state.left_down = true;
    state.mouse_state.cursor_pos = Some((4, 5));
    state.mouse_state.mouse_cursor_type = MouseCursor::Text;
    let mut expected = state.clone();
    state.clear_scroll_state();
    expected.mouse_state.scroll_x = FloatBits::from_bits(0.0f32.to_bits());
    expected.mouse_state.scroll_y = FloatBits::from_bits(0.0f32.to_bits());
    assert_eq!(state, expected);
    assert_eq!(f32::from_bits(state.mouse_state.scroll_x.bits), 0.0);
    assert_eq!(f32::from_bits(state.mouse_state.scroll_y.bits), 0.0);
}

#[test]
fn a_monitor_that_is_gone_gives_the_primary_one() {
    assert_eq!(WindowMonitorTarget::Primary.monitor_index(0), None);
    assert_eq!(WindowMonitorTarget::Primary.monitor_index(3), None);
    let second = WindowMonitorTarget::Custom(MonitorHandle { index: 1 });
    assert_eq!(second.monitor_index(2), Some(1));
    assert_eq!(second.monitor_index(5), Some(1));
    assert_eq!(second.monitor_index(1), None);
    assert_eq!(second.monitor_index(0), None);
    let first = WindowMonitorTarget::Custom(MonitorHandle { index: 0 });
    assert_eq!(first.monitor_index(1), Some(0));
    assert_eq!(first.monitor_index(0), None);
    let last = WindowMonitorTarget::Custom(MonitorHandle { index: usize::MAX });
    assert_eq!(last.monitor_index(usize::MAX), None);
}
