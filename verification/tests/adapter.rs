use imgui_glfw_rs::clock::{AxisScale, WindowMetrics, FALLBACK_DELTA_NS};
use imgui_glfw_rs::cursor::CursorKind;
use imgui_glfw_rs::cursor_sync::HostCursorMode;
use imgui_glfw_rs::input::{CaptureFlags, InputEvent, Modifiers, PointerPosition};
use imgui_glfw_rs::ImguiGLFW;

fn all_cursor_handles() -> Vec<Option<u64>> {
    // One handle per kind; ResizeAll, ResizeNESW and ResizeNWSE are
    // unavailable, as on platforms without those standard shapes.
    vec![
        Some(100),
        Some(101),
        None,
        Some(103),
        Some(104),
        None,
        None,
        Some(107),
        Some(108),
    ]
}

fn fresh_adapter() -> ImguiGLFW {
    ImguiGLFW::new(1_000, all_cursor_handles())
}

fn no_capture() -> CaptureFlags {
    CaptureFlags { mouse: false, keyboard: false }
}

fn mods_none() -> Modifiers {
    Modifiers { ctrl: false, alt: false, shift: false, super_key: false }
}

#[test]
fn pointer_leave_overrides_position() {
    // CursorPosition(100, 200) then CursorEnter(false): the final
    // pointer position is the "outside" sentinel, not (100, 200).
    let mut adapter = fresh_adapter();
    adapter.handle_event(&InputEvent::CursorPosition { x: 100, y: 200 }, no_capture());
    assert_eq!(
        adapter.input.pointer(),
        PointerPosition::At { x: 100, y: 200 }
    );
    adapter.handle_event(&InputEvent::CursorEnter { entered: false }, no_capture());
    assert_eq!(adapter.input.pointer(), PointerPosition::Outside);
}

#[test]
fn zero_sized_window_leaves_scale_at_default() {
    // Logical size (0,0) and framebuffer size (0,0): the frame opens
    // normally and the scale stays at its prior value, 1/1 on the
    // first call.
    let mut adapter = fresh_adapter();
    let metrics = WindowMetrics { logical_w: 0, logical_h: 0, fb_w: 0, fb_h: 0 };
    let params = adapter.frame(2_000, &metrics);
    assert_eq!(params.display_w, 0);
    assert_eq!(params.display_h, 0);
    assert_eq!(params.scale_x, AxisScale { fb: 1, logical: 1 });
    assert_eq!(params.scale_y, AxisScale { fb: 1, logical: 1 });
}

#[test]
fn zero_logical_width_keeps_previous_scale() {
    let mut adapter = fresh_adapter();
    let good = WindowMetrics { logical_w: 640, logical_h: 480, fb_w: 1280, fb_h: 960 };
    adapter.frame(2_000, &good);
    assert_eq!(adapter.viewport.scale_x, AxisScale { fb: 1280, logical: 640 });
    assert_eq!(adapter.viewport.scale_y, AxisScale { fb: 960, logical: 480 });
    let degenerate = WindowMetrics { logical_w: 0, logical_h: 480, fb_w: 7, fb_h: 9 };
    let params = adapter.frame(3_000, &degenerate);
    assert_eq!(params.scale_x, AxisScale { fb: 1280, logical: 640 });
    assert_eq!(params.scale_y, AxisScale { fb: 960, logical: 480 });
    assert_eq!(params.display_w, 0);
    assert_eq!(params.display_h, 480);
}

#[test]
fn delta_is_positive_even_when_clock_stalls() {
    let mut adapter = fresh_adapter();
    let metrics = WindowMetrics { logical_w: 640, logical_h: 480, fb_w: 640, fb_h: 480 };
    // Clock advanced: measured delta.
    let params = adapter.frame(1_500, &metrics);
    assert_eq!(params.delta_ns, 500);
    // Clock unchanged: fallback, still strictly positive.
    let params = adapter.frame(1_500, &metrics);
    assert_eq!(params.delta_ns, FALLBACK_DELTA_NS);
    // Clock stepped backwards: fallback again.
    let params = adapter.frame(900, &metrics);
    assert_eq!(params.delta_ns, FALLBACK_DELTA_NS);
    assert!(params.delta_ns > 0);
}

#[test]
fn key_event_updates_modifiers_then_key_bit() {
    // KeyEvent(A, pressed, Control) then KeyEvent(A, released, none):
    // ctrl is true after the first call and false after the second;
    // the key's pressed bit follows the same way.
    let key_a: u32 = 65;
    let mut adapter = fresh_adapter();
    let ctrl = Modifiers { ctrl: true, alt: false, shift: false, super_key: false };
    adapter.handle_event(
        &InputEvent::KeyEvent { key: key_a, pressed: true, modifiers: ctrl },
        no_capture(),
    );
    assert!(adapter.input.modifiers().ctrl);
    assert!(adapter.input.key_pressed(key_a as usize));
    adapter.handle_event(
        &InputEvent::KeyEvent { key: key_a, pressed: false, modifiers: mods_none() },
        no_capture(),
    );
    assert!(!adapter.input.modifiers().ctrl);
    assert!(!adapter.input.key_pressed(key_a as usize));
}

#[test]
fn button_last_write_wins() {
    // A run of events on the same slot: the final pressed state is the
    // last event's, whatever came before.
    let mut adapter = fresh_adapter();
    for pressed in [true, true, false, true, false] {
        adapter.handle_event(
            &InputEvent::MouseButton { button: 3, pressed, modifiers: mods_none() },
            no_capture(),
        );
    }
    assert!(!adapter.input.button_pressed(2));
    adapter.handle_event(
        &InputEvent::MouseButton { button: 3, pressed: true, modifiers: mods_none() },
        no_capture(),
    );
    assert!(adapter.input.button_pressed(2));
}

#[test]
fn cursor_sync_skips_unchanged_kind() {
    // First sync with a fresh request applies mode and cursor; a second
    // sync with the same request makes no host call at all.
    let mut adapter = fresh_adapter();
    let first = adapter.draw(false, Some(CursorKind::TextInput), false);
    assert_eq!(first.mode, Some(HostCursorMode::Normal));
    assert_eq!(first.cursor, Some(101));
    assert_eq!(adapter.applied_cursor, Some(CursorKind::TextInput));
    let second = adapter.draw(false, Some(CursorKind::TextInput), false);
    assert_eq!(second.mode, None);
    assert_eq!(second.cursor, None);
    assert_eq!(adapter.applied_cursor, Some(CursorKind::TextInput));
}

#[test]
fn cursor_sync_falls_back_to_arrow() {
    // ResizeAll has no handle: the Arrow handle is applied and the
    // applied state records Arrow, so a later Arrow request is free.
    let mut adapter = fresh_adapter();
    let actions = adapter.draw(false, Some(CursorKind::ResizeAll), false);
    assert_eq!(actions.mode, Some(HostCursorMode::Normal));
    assert_eq!(actions.cursor, Some(100));
    assert_eq!(adapter.applied_cursor, Some(CursorKind::Arrow));
    let again = adapter.draw(false, Some(CursorKind::Arrow), false);
    assert_eq!(again.mode, None);
    assert_eq!(again.cursor, None);
}

#[test]
fn cursor_sync_hides_once() {
    // No requested cursor: hide the host cursor, but only while one is
    // applied; disabled changes make no call in any state.
    let mut adapter = fresh_adapter();
    let nothing = adapter.draw(false, None, false);
    assert_eq!(nothing.mode, None);
    assert_eq!(nothing.cursor, None);
    adapter.draw(false, Some(CursorKind::Hand), false);
    let hide = adapter.draw(false, None, false);
    assert_eq!(hide.mode, Some(HostCursorMode::Hidden));
    assert_eq!(hide.cursor, None);
    assert_eq!(adapter.applied_cursor, None);
    let idle = adapter.draw(false, None, false);
    assert_eq!(idle.mode, None);
    assert_eq!(idle.cursor, None);
}

#[test]
fn cursor_sync_respects_disabled_config() {
    let mut adapter = fresh_adapter();
    let actions = adapter.draw(true, Some(CursorKind::Hand), false);
    assert_eq!(actions.mode, None);
    assert_eq!(actions.cursor, None);
    assert_eq!(adapter.applied_cursor, None);
}

#[test]
fn software_cursor_hides_host_cursor() {
    let mut adapter = fresh_adapter();
    adapter.draw(false, Some(CursorKind::Hand), false);
    let actions = adapter.draw(false, Some(CursorKind::Hand), true);
    assert_eq!(actions.mode, Some(HostCursorMode::Hidden));
    assert_eq!(actions.cursor, None);
    assert_eq!(adapter.applied_cursor, None);
}

#[test]
fn teardown_releases_each_created_handle_once() {
    let mut adapter = fresh_adapter();
    let released = adapter.teardown_cursors();
    assert_eq!(released, vec![100, 101, 103, 104, 107, 108]);
    // Second teardown: nothing left to release, no double free.
    let again = adapter.teardown_cursors();
    assert_eq!(again, Vec::<u64>::new());
}

#[test]
fn capture_flags_are_reported_per_category() {
    let mut adapter = fresh_adapter();
    let capture = CaptureFlags { mouse: true, keyboard: false };
    assert!(adapter.handle_event(
        &InputEvent::MouseButton { button: 1, pressed: true, modifiers: mods_none() },
        capture
    ));
    assert!(adapter.handle_event(&InputEvent::Scroll { dx: 0, dy: 1 }, capture));
    // Unmapped button: ignored and never captured.
    assert!(!adapter.handle_event(
        &InputEvent::MouseButton { button: 8, pressed: true, modifiers: mods_none() },
        capture
    ));
    // Keyboard category follows the keyboard flag.
    assert!(!adapter.handle_event(
        &InputEvent::KeyEvent { key: 65, pressed: true, modifiers: mods_none() },
        capture
    ));
    let capture = CaptureFlags { mouse: false, keyboard: true };
    assert!(adapter.handle_event(&InputEvent::CharacterInput { codepoint: 'x' }, capture));
    // Leave and focus events are never swallowed.
    assert!(!adapter.handle_event(&InputEvent::CursorEnter { entered: false }, capture));
    assert!(!adapter.handle_event(&InputEvent::FocusChanged { focused: false }, capture));
}

#[test]
fn focus_loss_sets_flag() {
    let mut adapter = fresh_adapter();
    adapter.handle_event(&InputEvent::FocusChanged { focused: false }, no_capture());
    assert!(adapter.input.focus_lost());
    adapter.handle_event(&InputEvent::FocusChanged { focused: true }, no_capture());
    assert!(!adapter.input.focus_lost());
}
