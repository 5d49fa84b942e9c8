use gpui_android::callback::{restore_callback, take_callback};
use gpui_android::display::AndroidDisplay;
use gpui_android::geometry::{Bounds, Edges, Point, Scalar, Size};
use gpui_android::ime::{push_event, EditorCall, EditorMethod, ImeEvent};
use gpui_android::input::Modifiers;
use gpui_android::insets::{content_insets, ContentRect, WindowInsets};
use gpui_android::keyboard::{KeyPress, Keycode, MetaState};
use gpui_android::touch::{MotionAction, MotionEvent, TouchGesture};
use gpui_android::velocity::TouchSample;
use gpui_android::window::{
    input_snapshot, scale_factor, surface_config, text_input_state_changed, AndroidWindow,
    Drawing, KeyboardRequest, PresentMode, RequestFrameOptions, SurfaceReplacement,
    TextInputStateChange, WindowAppearance, WindowBounds,
};
use std::collections::VecDeque;

const MILLI: u64 = 1_000_000;

fn scalar(value: f32) -> Scalar {
    Scalar { bits: value.to_bits() }
}

fn number(scalar: Scalar) -> f32 {
    f32::from_bits(scalar.bits)
}

fn size(width: f32, height: f32) -> Size<Scalar> {
    Size { width: scalar(width), height: scalar(height) }
}

fn edges(top: f32, right: f32, bottom: f32, left: f32) -> Edges<Scalar> {
    Edges {
        top: scalar(top),
        right: scalar(right),
        bottom: scalar(bottom),
        left: scalar(left),
    }
}

fn window() -> AndroidWindow<&'static str> {
    AndroidWindow::new(size(400.0, 800.0), scalar(2.0), WindowAppearance::Light)
}

/// Takes up covered edges as a caller does, with the growth measured.
fn cover(
    window: &mut AndroidWindow<&'static str>,
    covered: Edges<Scalar>,
    reset: bool,
) -> Option<WindowInsets> {
    let bars = window.insets_baseline(covered, reset);
    let growth = edges(
        number(covered.top) - number(bars.top),
        number(covered.right) - number(bars.right),
        number(covered.bottom) - number(bars.bottom),
        number(covered.left) - number(bars.left),
    );
    window.update_insets(covered, growth, reset)
}

fn motion(action: MotionAction, x: f32) -> MotionEvent {
    MotionEvent {
        action,
        sample: TouchSample {
            position: Point { x: scalar(x), y: scalar(0.0) },
            event_time_nanos: 0,
        },
        delta: Point::origin(),
        travel: scalar(0.0),
        tap_distance: scalar(0.0),
    }
}

#[test]
fn a_new_window_is_ready() {
    let window = window();
    assert_eq!(window.bounds(), Bounds { origin: Point::origin(), size: size(400.0, 800.0) });
    assert_eq!(window.window_bounds(), WindowBounds::Fullscreen(window.bounds()));
    assert_eq!(window.content_size(), size(400.0, 800.0));
    assert_eq!(window.scale_factor(), scalar(2.0));
    assert_eq!(window.appearance(), WindowAppearance::Light);
    assert_eq!(window.insets(), WindowInsets::none());
    assert_eq!(window.title, "");
    assert!(window.is_active() && window.surface_configured);
    assert!(window.is_maximized() && window.is_fullscreen() && !window.is_hovered());
    assert!(!window.window_controls().maximize);
    assert!(!window.soft_keyboard_requested);
}

#[test]
fn unknown_densities_scale_by_two() {
    assert_eq!(scale_factor(None), scalar(2.0));
    assert_eq!(scale_factor(Some(scalar(2.625))), scalar(2.625));
}

#[test]
fn surfaces_are_opaque_and_never_block() {
    let config = surface_config(Size { width: 1080, height: 2400 });
    assert_eq!(config.size, Size { width: 1080, height: 2400 });
    assert!(!config.transparent);
    assert_eq!(config.preferred_present_mode, Some(PresentMode::Mailbox));
}

#[test]
fn nothing_is_drawn_without_a_surface() {
    let mut window = window();
    window.set_pending_size(Size { width: 3, height: 4 });
    window.soft_keyboard_requested = true;
    window.handle_surface_destroyed();
    assert!(!window.soft_keyboard_requested);
    assert_eq!(window.draw(), Drawing::Skip);
    assert_eq!(window.request_frame(true), None);
    assert!(!window.handle_surface_created(SurfaceReplacement::NoNativeWindow));
    assert!(!window.handle_surface_created(SurfaceReplacement::NoGpuContext));
    assert!(!window.handle_surface_created(SurfaceReplacement::Failed));
    assert_eq!(window.draw(), Drawing::Skip);
    assert!(window.handle_surface_created(SurfaceReplacement::Replaced));
    assert_eq!(
        window.request_frame(true),
        Some(RequestFrameOptions { require_presentation: true, force_render: true })
    );
    assert_eq!(
        window.draw(),
        Drawing::Draw { new_size: Some(Size { width: 3, height: 4 }) }
    );
    assert_eq!(window.draw(), Drawing::Draw { new_size: None });
}

#[test]
fn a_new_height_keeps_the_system_bars() {
    let mut window = window();
    let update = window.update_size(size(400.0, 800.0), scalar(2.0));
    assert!(!update.changed && update.reset_insets);
    cover(&mut window, edges(24.0, 0.0, 48.0, 0.0), true);
    let update = window.update_size(size(400.0, 500.0), scalar(2.0));
    assert!(update.changed && !update.reset_insets);
    let update = window.update_size(size(400.0, 500.0), scalar(2.0));
    assert!(!update.changed && !update.reset_insets);
    let update = window.update_size(size(500.0, 400.0), scalar(2.0));
    assert!(update.changed && update.reset_insets);
    let update = window.update_size(size(500.0, 400.0), scalar(3.0));
    assert!(update.changed && update.reset_insets);
    assert_eq!(window.scale_factor(), scalar(3.0));
    assert_eq!(window.content_size(), size(500.0, 400.0));
}

#[test]
fn content_insets_stay_within_the_window() {
    let insets = |width: i32, height: i32, rect: ContentRect| {
        let edges = content_insets(Size { width, height }, rect);
        (edges.top, edges.right, edges.bottom, edges.left)
    };
    let rect = ContentRect { left: 10, top: 63, right: 1070, bottom: 2274 };
    assert_eq!(insets(1080, 2400, rect), (63, 10, 126, 10));
    let rect = ContentRect { left: -5, top: 9000, right: i32::MIN, bottom: i32::MAX };
    assert_eq!(insets(1080, 2400, rect), (2400, 1080, 0, 0));
    let rect = ContentRect { left: 1, top: 1, right: 1, bottom: 1 };
    assert_eq!(insets(-1, -1, rect), (0, 0, 0, 0));
}

#[test]
fn growth_beyond_the_system_bars_is_the_keyboard() {
    let mut window = window();
    let bars = edges(24.0, 0.0, 48.0, 0.0);
    let first = cover(&mut window, bars, true).unwrap();
    assert_eq!(first, WindowInsets { safe_area: bars, ime: Edges::zero() });
    assert!(window.show_soft_keyboard());
    let up = cover(&mut window, edges(24.0, 0.0, 348.0, 0.0), false).unwrap();
    assert_eq!(up, WindowInsets { safe_area: bars, ime: edges(0.0, 0.0, 300.0, 0.0) });
    assert!(window.soft_keyboard_requested);
    assert_eq!(cover(&mut window, edges(24.0, 0.0, 348.0, 0.0), false), None);
    let down = cover(&mut window, bars, false).unwrap();
    assert_eq!(down.ime, Edges::zero());
    assert!(!window.soft_keyboard_requested);
    let immersive = edges(0.0, 0.0, 0.0, 0.0);
    assert_eq!(cover(&mut window, immersive, false).unwrap().safe_area, immersive);
    assert_eq!(window.stable_insets, Some(immersive));
}

#[test]
fn a_reset_learns_the_system_bars_anew() {
    let mut window = window();
    cover(&mut window, edges(24.0, 0.0, 48.0, 0.0), true);
    let rotated = edges(24.0, 90.0, 60.0, 0.0);
    let next = cover(&mut window, rotated, true).unwrap();
    assert_eq!(next, WindowInsets { safe_area: rotated, ime: Edges::zero() });
    assert_eq!(window.insets(), next);
}

#[test]
fn a_keyboard_is_shown_once() {
    let mut window = window();
    assert!(!window.summon_soft_keyboard());
    assert!(!window.soft_keyboard_requested);
    window.set_input_handler("field");
    assert!(!window.soft_keyboard_requested);
    assert!(window.summon_soft_keyboard());
    assert!(!window.summon_soft_keyboard());
    assert!(!window.show_soft_keyboard());
    window.reset_soft_keyboard_request();
    assert!(window.show_soft_keyboard());
}

#[test]
fn the_editor_opens_with_the_text() {
    let mut window = window();
    let snapshot = input_snapshot(Some(2..3), Some(String::from("text")));
    let update = window.open_editor(snapshot);
    assert_eq!(update.text, "text");
    assert_eq!(update.call.method, EditorMethod::ShowKeyboard);
    assert_eq!((update.call.start, update.call.end), (2, 3));
    assert_eq!(window.last_ime_selection, Some(2..3));
    let update = window.open_editor(input_snapshot(Some(2..3), None));
    assert_eq!(update.text, "");
    assert_eq!(window.last_ime_selection, Some(0..0));
    assert!(input_snapshot(None, Some(String::new())).is_none());
}

#[test]
fn focus_that_is_lost_takes_the_keyboard() {
    let mut window = window();
    assert!(!window.hide_soft_keyboard(0));
    window.show_soft_keyboard();
    window.last_ime_selection = Some(1..1);
    assert!(window.hide_soft_keyboard(0));
    assert!(!window.soft_keyboard_requested);
    assert_eq!(window.last_ime_selection, None);
}

#[test]
fn a_hold_keeps_the_keyboard_once() {
    let mut window = window();
    window.show_soft_keyboard();
    window.hold_soft_keyboard(1000 * MILLI);
    assert!(!window.hide_soft_keyboard(1499 * MILLI));
    assert!(window.soft_keyboard_requested);
    assert_eq!(window.soft_keyboard_held_at, None);
    assert!(window.hide_soft_keyboard(1499 * MILLI));

    window.show_soft_keyboard();
    window.hold_soft_keyboard(2000 * MILLI);
    assert!(window.hide_soft_keyboard(2500 * MILLI));

    window.show_soft_keyboard();
    window.hold_soft_keyboard(3000 * MILLI);
    window.release_soft_keyboard();
    assert!(window.hide_soft_keyboard(3001 * MILLI));
}

#[test]
fn a_long_press_holds_and_a_touch_releases() {
    let mut window = window();
    let mut gesture = TouchGesture::default();
    window.show_soft_keyboard();
    window.handle_motion_event(&mut gesture, &motion(MotionAction::Down, 5.0), 0);
    assert!(window.tick_long_press(&mut gesture, 499 * MILLI).is_empty());
    assert_eq!(window.soft_keyboard_held_at, None);
    assert_eq!(window.tick_long_press(&mut gesture, 500 * MILLI).len(), 4);
    assert_eq!(window.soft_keyboard_held_at, Some(500 * MILLI));
    window.handle_motion_event(&mut gesture, &motion(MotionAction::Up, 6.0), 600 * MILLI);
    assert_eq!(window.soft_keyboard_held_at, Some(500 * MILLI));
    assert_eq!(window.mouse_position().x, scalar(6.0));
    window.handle_motion_event(&mut gesture, &motion(MotionAction::Down, 7.0), 700 * MILLI);
    assert_eq!(window.soft_keyboard_held_at, None);
}

#[test]
fn taps_are_counted_by_the_window() {
    let mut window = window();
    let mut gesture = TouchGesture::default();
    for count in 1..4 {
        window.handle_motion_event(&mut gesture, &motion(MotionAction::Down, 5.0), 0);
        window.handle_motion_event(&mut gesture, &motion(MotionAction::Up, 5.0), 0);
        assert_eq!(window.click_state.current_count, count);
    }
}

#[test]
fn a_selection_is_told_to_the_input_method_once() {
    let mut window = window();
    assert_eq!(window.selection_news(None), None);
    assert_eq!(window.selection_news(Some(1..4)), Some(1..4));
    let update = window.tell_selection(1..4, Some(String::from("text"))).unwrap();
    assert_eq!(update.text, "text");
    assert_eq!(
        update.call,
        EditorCall { method: EditorMethod::SyncText, start: 1, end: 4 }
    );
    assert_eq!(window.last_ime_selection, Some(1..4));
    assert_eq!(window.selection_news(Some(1..4)), None);
    assert_eq!(window.selection_news(Some(1..5)), Some(1..5));
    assert_eq!(window.selection_news(Some(0..4)), Some(0..4));
    window.show_soft_keyboard();
    window.hide_soft_keyboard(0);
    assert_eq!(window.selection_news(Some(1..4)), Some(1..4));
}

#[test]
fn a_selection_without_its_text_stays_news() {
    let mut window = window();
    window.tell_selection(0..1, Some(String::from("text")));
    assert_eq!(window.selection_news(Some(2..2)), Some(2..2));
    assert!(window.tell_selection(2..2, None).is_none());
    assert_eq!(window.last_ime_selection, Some(0..1));
    assert_eq!(window.selection_news(Some(2..2)), Some(2..2));
    assert!(window.tell_selection(2..2, Some(String::new())).is_some());
    assert_eq!(window.selection_news(Some(2..2)), None);
}

#[test]
fn a_new_size_waits_for_the_next_frame() {
    let mut window = window();
    let physical = Size { width: 800, height: 1000 };
    let update = window.update_size(size(400.0, 800.0), scalar(2.0));
    window.finish_size_update(&update, physical);
    assert_eq!(window.pending_physical_size, None);
    let update = window.update_size(size(400.0, 500.0), scalar(2.0));
    window.finish_size_update(&update, physical);
    assert_eq!(window.draw(), Drawing::Draw { new_size: Some(physical) });
    assert_eq!(window.draw(), Drawing::Draw { new_size: None });
}

#[test]
fn edits_wait_for_a_text_field() {
    let mut window = window();
    let mut pending = VecDeque::new();
    window.set_input_handler("field");
    assert!(window.take_ime_edits(&mut pending).is_none());
    assert_eq!(window.input_handler, Some("field"));
    assert_eq!(window.take_input_handler(), Some("field"));
    push_event(&mut pending, ImeEvent::SetSelection(1..2));
    push_event(&mut pending, ImeEvent::SetSelection(3..4));
    assert!(window.take_ime_edits(&mut pending).is_none());
    assert_eq!(pending.len(), 2);
    window.set_input_handler("field");
    let (handler, edits) = window.take_ime_edits(&mut pending).unwrap();
    assert_eq!(handler, "field");
    assert!(matches!(&edits[0], ImeEvent::SetSelection(range) if *range == (1..2)));
    assert_eq!(edits.len(), 2);
    assert!(pending.is_empty());
    assert_eq!(window.input_handler, None);
    window.restore_input_handler(handler);
    assert_eq!(window.input_handler, Some("field"));
    window.restore_input_handler("older");
    assert_eq!(window.input_handler, Some("field"));
}

#[test]
fn changes_are_reported_once() {
    let mut window = window();
    assert!(!window.set_active(true));
    assert!(window.set_active(false));
    assert!(!window.set_active(false));
    window.activate();
    assert!(window.is_active());
    assert!(!window.set_appearance(WindowAppearance::Light));
    assert!(window.set_appearance(WindowAppearance::Dark));
    assert_eq!(window.appearance(), WindowAppearance::Dark);
    window.set_title(String::from("title"));
    assert_eq!(window.title, "title");
}

#[test]
fn keys_set_the_modifiers() {
    let mut window = window();
    assert!(matches!(
        window.handle_key_event(Keycode::Other, MetaState { bits: 1 }),
        KeyPress::Unhandled
    ));
    assert_eq!(window.modifiers(), Modifiers::none());
    window.handle_key_event(Keycode::ShiftLeft, MetaState { bits: 1 });
    assert_eq!(window.modifiers(), Modifiers::shift());
    window.handle_key_event(Keycode::B, MetaState { bits: 1_048_576 });
    assert_eq!(window.modifiers(), Modifiers::none());
    assert!(window.capslock().on);
}

#[test]
fn text_fields_drive_the_keyboard() {
    assert_eq!(
        text_input_state_changed(TextInputStateChange::FocusGained),
        KeyboardRequest::Show
    );
    assert_eq!(
        text_input_state_changed(TextInputStateChange::FocusLost),
        KeyboardRequest::Hide
    );
    assert_eq!(
        text_input_state_changed(TextInputStateChange::SelectionChanged),
        KeyboardRequest::Synchronize
    );
    assert_eq!(
        text_input_state_changed(TextInputStateChange::ContentChanged),
        KeyboardRequest::Synchronize
    );
}

#[test]
fn callbacks_may_be_replaced_while_they_run() {
    let mut slot = Some("first");
    let taken = take_callback(&mut slot).unwrap();
    assert_eq!(slot, None);
    restore_callback(&mut slot, taken);
    assert_eq!(slot, Some("first"));
    let taken = take_callback(&mut slot).unwrap();
    slot = Some("second");
    restore_callback(&mut slot, taken);
    assert_eq!(slot, Some("second"));
}

#[test]
fn displays_have_an_identity_of_their_own() {
    let mut display = AndroidDisplay::new();
    assert_eq!(display.id(), 1);
    assert_eq!(
        uuid::Uuid::from_u128(display.uuid()).get_version(),
        Some(uuid::Version::Random)
    );
    assert_eq!(
        uuid::Uuid::from_u128(display.uuid()).get_variant(),
        uuid::Variant::RFC4122
    );
    assert_ne!(display.uuid(), AndroidDisplay::new().uuid());
    assert_eq!(display.bounds(), Bounds { origin: Point::origin(), size: size(412.0, 915.0) });
    display.set_size(size(1.0, 2.0));
    assert_eq!(display.bounds().size, size(1.0, 2.0));
    assert_eq!(AndroidDisplay::with_uuid(7).uuid(), 7);
}
