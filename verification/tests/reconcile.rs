use azul_window::reconcile::WindowAction;
use azul_window::scalar::FloatBits;
use azul_window::window_state::{MouseCursor, WindowPosition, WindowState};

fn changed_everywhere() -> WindowState {
    let mut new = WindowState::default();
    new.title = "Renamed".to_string();
    new.mouse_state.mouse_cursor_type = MouseCursor::Crosshair;
    new.is_maximized = true;
    new.is_fullscreen = true;
    new.has_decorations = false;
    new.is_visible = false;
    new.size.min_dimensions = Some((100, 50));
    new.size.max_dimensions = Some((2000, 1000));
    new
}

#[test]
fn equal_states_need_no_call() {
    let mut live = WindowState::default();
    let before = live.clone();
    let actions = live.update_from_user_window_state(WindowState::default());
    assert!(actions.is_empty());
    assert_eq!(live, before);
}

#[test]
fn every_reconciled_field_gives_one_call_in_order() {
    let mut live = WindowState::default();
    let actions = live.update_from_user_window_state(changed_everywhere());
    assert_eq!(
        actions,
        vec![
            WindowAction::SetTitle("Renamed".to_string()),
            WindowAction::SetCursor(MouseCursor::Crosshair),
            WindowAction::SetMaximized(true),
            WindowAction::EnterFullscreen,
            WindowAction::SetDecorations(false),
            WindowAction::Hide,
            WindowAction::SetMinDimensions(Some((100, 50))),
            WindowAction::SetMaxDimensions(Some((2000, 1000))),
        ]
    );
    assert_eq!(live, changed_everywhere());
}

#[test]
fn reverse_changes_give_the_reverse_calls() {
    let mut live = changed_everywhere();
    let actions = live.update_from_user_window_state(WindowState::default());
    assert_eq!(
        actions,
        vec![
            WindowAction::SetTitle("Azul App".to_string()),
            WindowAction::SetCursor(MouseCursor::Default),
            WindowAction::SetMaximized(false),
            WindowAction::LeaveFullscreen,
            WindowAction::SetDecorations(true),
            WindowAction::Show,
            WindowAction::SetMinDimensions(None),
            WindowAction::SetMaxDimensions(None),
        ]
    );
    assert_eq!(live, WindowState::default());
}

#[test]
fn only_the_title_changes() {
    let mut live = WindowState::default();
    let mut new = WindowState::default();
    new.title = "Other".to_string();
    let actions = live.update_from_user_window_state(new);
    assert_eq!(actions, vec![WindowAction::SetTitle("Other".to_string())]);
    assert_eq!(live.title, "Other");
}

#[test]
fn only_visibility_changes() {
    let mut live = WindowState::default();
    live.is_visible = false;
    let mut new = live.clone();
    new.is_visible = true;
    let actions = live.update_from_user_window_state(new);
    assert_eq!(actions, vec![WindowAction::Show]);
    assert!(live.is_visible);
}

#[test]
fn only_a_size_bound_changes() {
    let mut live = WindowState::default();
    live.size.max_dimensions = Some((640, 480));
    let mut new = live.clone();
    new.size.max_dimensions = Some((640, 481));
    let actions = live.update_from_user_window_state(new);
    assert_eq!(actions, vec![WindowAction::SetMaxDimensions(Some((640, 481)))]);
    assert_eq!(live.size.max_dimensions, Some((640, 481)));
    assert_eq!(live.size.min_dimensions, None);
}

#[test]
fn position_and_size_are_not_reconciled() {
    let mut live = WindowState::default();
    live.position = Some(WindowPosition { x: 1, y: 2 });
    let before = live.clone();
    let mut new = WindowState::default();
    new.position = Some(WindowPosition { x: 300, y: 400 });
    new.size.width = 1;
    new.size.height = 2;
    new.size.hidpi_factor = FloatBits::from_bits(3.0f32.to_bits());
    new.is_transparent = true;
    new.mouse_state.left_down = true;
    new.mouse_state.scroll_x = FloatBits::from_bits(9.0f32.to_bits());
    new.mouse_state.cursor_pos = Some((5, 5));
    new.keyboard_state.keys.push('z');
    let actions = live.update_from_user_window_state(new);
    assert!(actions.is_empty());
    assert_eq!(live, before);
}

#[test]
fn pointer_shape_is_taken_without_the_rest_of_the_mouse() {
    let mut live = WindowState::default();
    live.mouse_state.right_down = true;
    let mut new = WindowState::default();
    new.mouse_state.mouse_cursor_type = MouseCursor::Wait;
    new.mouse_state.middle_down = true;
    let actions = live.update_from_user_window_state(new);
    assert_eq!(actions, vec![WindowAction::SetCursor(MouseCursor::Wait)]);
    assert_eq!(live.mouse_state.mouse_cursor_type, MouseCursor::Wait);
    assert!(live.mouse_state.right_down);
    assert!(!live.mouse_state.middle_down);
}

#[test]
fn a_second_pass_with_the_same_request_is_silent() {
    let mut live = WindowState::default();
    let request = changed_everywhere();
    let first = live.update_from_user_window_state(request.clone());
    assert_eq!(first.len(), 8);
    let after_first = live.clone();
    let second = live.update_from_user_window_state(request);
    assert!(second.is_empty());
    assert_eq!(live, after_first);
}

#[test]
fn as_many_calls_as_changed_fields() {
    let mut live = WindowState::default();
    let mut new = WindowState::default();
    new.is_maximized = true;
    new.has_decorations = false;
    new.size.min_dimensions = Some((1, 1));
    let actions = live.update_from_user_window_state(new);
    assert_eq!(
        actions,
        vec![
            WindowAction::SetMaximized(true),
            WindowAction::SetDecorations(false),
            WindowAction::SetMinDimensions(Some((1, 1))),
        ]
    );
}

#[test]
fn cloned_action_is_equal() {
    let a = WindowAction::SetTitle("t".to_string());
    assert_eq!(a.clone(), a);
    assert_eq!(WindowAction::Hide.clone(), WindowAction::Hide);
    assert_ne!(WindowAction::Show, WindowAction::Hide);
}
