use gpui_android::input::{InputStatus, Keystroke, Modifiers, PlatformInput};
use gpui_android::keyboard::{
    key_char, key_input, key_press, keycode_to_key, modifiers_from_meta_state, text_of_stroke,
    typed_text,
    KeyAction, KeyMapChar, KeyMapStep, KeyMaps, KeyPress, Keycode, MetaState,
    VIRTUAL_KEYBOARD_DEVICE_ID,
};

fn keystroke() -> Keystroke {
    Keystroke {
        modifiers: Modifiers::none(),
        key: String::from("a"),
        key_char: Some(String::from("a")),
    }
}

#[test]
fn keys_have_their_names() {
    assert_eq!(keycode_to_key(Keycode::A), Some("a"));
    assert_eq!(keycode_to_key(Keycode::Z), Some("z"));
    assert_eq!(keycode_to_key(Keycode::Keycode0), Some("0"));
    assert_eq!(keycode_to_key(Keycode::Keycode9), Some("9"));
    assert_eq!(keycode_to_key(Keycode::Enter), Some("enter"));
    assert_eq!(keycode_to_key(Keycode::NumpadEnter), Some("enter"));
    assert_eq!(keycode_to_key(Keycode::Del), Some("backspace"));
    assert_eq!(keycode_to_key(Keycode::ForwardDel), Some("delete"));
    assert_eq!(keycode_to_key(Keycode::Back), Some("back"));
    assert_eq!(keycode_to_key(Keycode::Backslash), Some("\\"));
    assert_eq!(keycode_to_key(Keycode::Apostrophe), Some("'"));
    assert_eq!(keycode_to_key(Keycode::CapsLock), Some(""));
    assert_eq!(keycode_to_key(Keycode::ShiftLeft), Some(""));
    assert_eq!(keycode_to_key(Keycode::Other), None);
}

#[test]
fn meta_bits_are_modifiers() {
    let modifiers = |bits: u32| modifiers_from_meta_state(MetaState { bits });
    assert_eq!(modifiers(0), Modifiers::none());
    assert_eq!(modifiers(1), Modifiers::shift());
    assert!(modifiers(2).alt);
    assert!(modifiers(8).function);
    assert!(modifiers(4096).control);
    assert!(modifiers(65536).platform);
    assert!(MetaState { bits: 1_048_576 }.caps_lock_on());
    assert!(!MetaState { bits: 4096 }.caps_lock_on());
    assert_eq!(modifiers(1_048_576), Modifiers::none());
}

#[test]
fn key_presses_are_told_apart() {
    assert!(matches!(
        key_press(Keycode::Other, MetaState { bits: 1 }),
        KeyPress::Unhandled
    ));
    match key_press(Keycode::ShiftLeft, MetaState { bits: 1 }) {
        KeyPress::Modifier(changed) => {
            assert_eq!(changed.modifiers, Modifiers::shift());
            assert!(!changed.capslock.on);
        }
        other => panic!("{other:?}"),
    }
    match key_press(Keycode::Q, MetaState { bits: 4096 + 1_048_576 }) {
        KeyPress::Key { changed, key } => {
            assert_eq!(key, "q");
            assert!(changed.modifiers.control);
            assert!(changed.capslock.on);
        }
        other => panic!("{other:?}"),
    }
}

#[test]
fn strokes_go_down_and_up() {
    match key_input(KeyAction::Down, keystroke()) {
        (Some(PlatformInput::KeyDown(event)), InputStatus::Handled) => {
            assert_eq!(event.keystroke.key, "a");
            assert!(!event.is_held);
            assert!(!event.prefer_character_input);
        }
        other => panic!("{other:?}"),
    }
    match key_input(KeyAction::Up, keystroke()) {
        (Some(PlatformInput::KeyUp(event)), InputStatus::Handled) => {
            assert_eq!(event.keystroke.key_char.as_deref(), Some("a"));
        }
        other => panic!("{other:?}"),
    }
    assert!(matches!(
        key_input(KeyAction::Other, keystroke()),
        (None, InputStatus::Unhandled)
    ));
}

#[test]
fn text_is_typed_unless_stopped() {
    let text = || Some(String::from("x"));
    let control = modifiers_from_meta_state(MetaState { bits: 4096 });
    let shift_alt = modifiers_from_meta_state(MetaState { bits: 3 });
    assert_eq!(typed_text(None, Modifiers::none(), text()), text());
    assert_eq!(typed_text(Some(true), Modifiers::shift(), text()), text());
    assert_eq!(typed_text(Some(false), Modifiers::none(), text()), None);
    assert_eq!(typed_text(None, control, text()), None);
    assert_eq!(typed_text(None, shift_alt, text()), None);
    assert_eq!(typed_text(None, Modifiers::none(), None), None);
}

#[test]
fn only_keys_that_go_down_type() {
    let text = || Some(String::from("x"));
    let typed = |action| text_of_stroke(action, None, Modifiers::none(), text());
    assert_eq!(typed(KeyAction::Down), text());
    assert_eq!(typed(KeyAction::Up), None);
    assert_eq!(typed(KeyAction::Other), None);
    assert_eq!(
        text_of_stroke(KeyAction::Down, Some(false), Modifiers::none(), text()),
        None
    );
}

#[test]
fn full_characters_are_text() {
    assert_eq!(key_char(Some(KeyMapChar::Unicode('\u{e9}'))), Some(String::from("\u{e9}")));
    assert_eq!(key_char(Some(KeyMapChar::CombiningAccent('`'))), None);
    assert_eq!(key_char(Some(KeyMapChar::Nothing)), None);
    assert_eq!(key_char(None), None);
}

#[test]
fn key_maps_are_kept_under_their_device() {
    let mut maps: KeyMaps<&'static str> = KeyMaps::new();
    let step = maps.look_up(3);
    assert_eq!(step, KeyMapStep::LoadOwn);
    assert_eq!(step.device_to_load(3), Some(3));
    assert_eq!(maps.loaded(3, step, Some("own")), KeyMapStep::Ready);
    assert_eq!(maps.look_up(3), KeyMapStep::Ready);
    assert_eq!(maps.get(3), Some(&"own"));
    assert_eq!(maps.look_up(3).device_to_load(3), None);
}

#[test]
fn devices_without_a_key_map_use_the_virtual_one() {
    let mut maps: KeyMaps<&'static str> = KeyMaps::new();
    let step = maps.look_up(0);
    let step = maps.loaded(0, step, None);
    assert_eq!(step, KeyMapStep::LoadVirtual);
    assert_eq!(step.device_to_load(0), Some(VIRTUAL_KEYBOARD_DEVICE_ID));
    assert_eq!(maps.loaded(0, step, Some("virtual")), KeyMapStep::Ready);
    assert_eq!(maps.get(0), Some(&"virtual"));
    assert_eq!(maps.get(VIRTUAL_KEYBOARD_DEVICE_ID), None);

    let step = maps.look_up(5);
    let step = maps.loaded(5, step, None);
    assert_eq!(maps.loaded(5, step, None), KeyMapStep::Unavailable);
    assert_eq!(maps.get(5), None);
    assert_eq!(maps.look_up(5), KeyMapStep::LoadOwn);
}
