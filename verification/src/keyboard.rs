//! Hardware keys: their names, the modifiers held with them and the text they type.

use crate::input::{
    Capslock, InputStatus, KeyDownEvent, KeyUpEvent, Keystroke, Modifiers, ModifiersChangedEvent,
    PlatformInput,
};
use std::collections::HashMap;
use vstd::prelude::*;

verus! {

broadcast use vstd::std_specs::hash::group_hash_axioms;

/// The device whose key map always exists: the built-in virtual keyboard.
pub const VIRTUAL_KEYBOARD_DEVICE_ID: i32 = -1;

/// The bits of a meta state that are read, as the NDK numbers them.
pub const META_SHIFT_ON: u32 = 0x0000_0001;

pub const META_ALT_ON: u32 = 0x0000_0002;

pub const META_FUNCTION_ON: u32 = 0x0000_0008;

pub const META_CTRL_ON: u32 = 0x0000_1000;

pub const META_META_ON: u32 = 0x0001_0000;

pub const META_CAPS_LOCK_ON: u32 = 0x0010_0000;

/// The keys that are told apart.
#[derive(Clone, Copy, Debug, PartialEq, Eq, Structural)]
pub enum Keycode {
    A,
    B,
    C,
    D,
    E,
    F,
    G,
    H,
    I,
    J,
    K,
    L,
    M,
    N,
    O,
    P,
    Q,
    R,
    S,
    T,
    U,
    V,
    W,
    X,
    Y,
    Z,
    Keycode0,
    Keycode1,
    Keycode2,
    Keycode3,
    Keycode4,
    Keycode5,
    Keycode6,
    Keycode7,
    Keycode8,
    Keycode9,
    Space,
    Enter,
    NumpadEnter,
    Tab,
    Del,
    ForwardDel,
    Escape,
    Back,
    DpadUp,
    DpadDown,
    DpadLeft,
    DpadRight,
    PageUp,
    PageDown,
    MoveHome,
    MoveEnd,
    Comma,
    Period,
    Minus,
    Equals,
    LeftBracket,
    RightBracket,
    Backslash,
    Semicolon,
    Apostrophe,
    Slash,
    Grave,
    ShiftLeft,
    ShiftRight,
    CtrlLeft,
    CtrlRight,
    AltLeft,
    AltRight,
    MetaLeft,
    MetaRight,
    CapsLock,
    /// Any other key.
    Other,
}

/// The name of a key: empty for a modifier, none for a key that is left to the system.
pub open spec fn key_name(keycode: Keycode) -> Option<Seq<char>> {
    match keycode {
        Keycode::A => Some("a"@),
        Keycode::B => Some("b"@),
        Keycode::C => Some("c"@),
        Keycode::D => Some("d"@),
        Keycode::E => Some("e"@),
        Keycode::F => Some("f"@),
        Keycode::G => Some("g"@),
        Keycode::H => Some("h"@),
        Keycode::I => Some("i"@),
        Keycode::J => Some("j"@),
        Keycode::K => Some("k"@),
        Keycode::L => Some("l"@),
        Keycode::M => Some("m"@),
        Keycode::N => Some("n"@),
        Keycode::O => Some("o"@),
        Keycode::P => Some("p"@),
        Keycode::Q => Some("q"@),
        Keycode::R => Some("r"@),
        Keycode::S => Some("s"@),
        Keycode::T => Some("t"@),
        Keycode::U => Some("u"@),
        Keycode::V => Some("v"@),
        Keycode::W => Some("w"@),
        Keycode::X => Some("x"@),
        Keycode::Y => Some("y"@),
        Keycode::Z => Some("z"@),
        Keycode::Keycode0 => Some("0"@),
        Keycode::Keycode1 => Some("1"@),
        Keycode::Keycode2 => Some("2"@),
        Keycode::Keycode3 => Some("3"@),
        Keycode::Keycode4 => Some("4"@),
        Keycode::Keycode5 => Some("5"@),
        Keycode::Keycode6 => Some("6"@),
        Keycode::Keycode7 => Some("7"@),
        Keycode::Keycode8 => Some("8"@),
        Keycode::Keycode9 => Some("9"@),
        Keycode::Space => Some("space"@),
        Keycode::Enter => Some("enter"@),
        Keycode::NumpadEnter => Some("enter"@),
        Keycode::Tab => Some("tab"@),
        Keycode::Del => Some("backspace"@),
        Keycode::ForwardDel => Some("delete"@),
        Keycode::Escape => Some("escape"@),
        Keycode::Back => Some("back"@),
        Keycode::DpadUp => Some("up"@),
        Keycode::DpadDown => Some("down"@),
        Keycode::DpadLeft => Some("left"@),
        Keycode::DpadRight => Some("right"@),
        Keycode::PageUp => Some("pageup"@),
        Keycode::PageDown => Some("pagedown"@),
        Keycode::MoveHome => Some("home"@),
        Keycode::MoveEnd => Some("end"@),
        Keycode::Comma => Some(","@),
        Keycode::Period => Some("."@),
        Keycode::Minus => Some("-"@),
        Keycode::Equals => Some("="@),
        Keycode::LeftBracket => Some("["@),
        Keycode::RightBracket => Some("]"@),
        Keycode::Backslash => Some("\\"@),
        Keycode::Semicolon => Some(";"@),
        Keycode::Apostrophe => Some("'"@),
        Keycode::Slash => Some("/"@),
        Keycode::Grave => Some("`"@),
        Keycode::ShiftLeft => Some(""@),
        Keycode::ShiftRight => Some(""@),
        Keycode::CtrlLeft => Some(""@),
        Keycode::CtrlRight => Some(""@),
        Keycode::AltLeft => Some(""@),
        Keycode::AltRight => Some(""@),
        Keycode::MetaLeft => Some(""@),
        Keycode::MetaRight => Some(""@),
        Keycode::CapsLock => Some(""@),
        Keycode::Other => None,
    }
}

/// The keys that only modify others.
pub open spec fn is_modifier_key(keycode: Keycode) -> bool {
    match keycode {
        Keycode::ShiftLeft => true,
        Keycode::ShiftRight => true,
        Keycode::CtrlLeft => true,
        Keycode::CtrlRight => true,
        Keycode::AltLeft => true,
        Keycode::AltRight => true,
        Keycode::MetaLeft => true,
        Keycode::MetaRight => true,
        Keycode::CapsLock => true,
        _ => false,
    }
}

/// Maps a key to its name. Modifier keys have an empty name: they are reported as a
/// change of the modifiers. Keys without a name are left to the system, which applies
/// its default to them (volume, for example). The back key has a name, since the
/// application uses it to navigate.
pub fn keycode_to_key(keycode: Keycode) -> (name: Option<&'static str>)
    ensures
        name is Some <==> key_name(keycode) is Some,
        name is Some ==> name->0@ == key_name(keycode)->0,
{
    match keycode {
        Keycode::A => Some("a"),
        Keycode::B => Some("b"),
        Keycode::C => Some("c"),
        Keycode::D => Some("d"),
        Keycode::E => Some("e"),
        Keycode::F => Some("f"),
        Keycode::G => Some("g"),
        Keycode::H => Some("h"),
        Keycode::I => Some("i"),
        Keycode::J => Some("j"),
        Keycode::K => Some("k"),
        Keycode::L => Some("l"),
        Keycode::M => Some("m"),
        Keycode::N => Some("n"),
        Keycode::O => Some("o"),
        Keycode::P => Some("p"),
        Keycode::Q => Some("q"),
        Keycode::R => Some("r"),
        Keycode::S => Some("s"),
        Keycode::T => Some("t"),
        Keycode::U => Some("u"),
        Keycode::V => Some("v"),
        Keycode::W => Some("w"),
        Keycode::X => Some("x"),
        Keycode::Y => Some("y"),
        Keycode::Z => Some("z"),
        Keycode::Keycode0 => Some("0"),
        Keycode::Keycode1 => Some("1"),
        Keycode::Keycode2 => Some("2"),
        Keycode::Keycode3 => Some("3"),
        Keycode::Keycode4 => Some("4"),
        Keycode::Keycode5 => Some("5"),
        Keycode::Keycode6 => Some("6"),
        Keycode::Keycode7 => Some("7"),
        Keycode::Keycode8 => Some("8"),
        Keycode::Keycode9 => Some("9"),
        Keycode::Space => Some("space"),
        Keycode::Enter => Some("enter"),
        Keycode::NumpadEnter => Some("enter"),
        Keycode::Tab => Some("tab"),
        Keycode::Del => Some("backspace"),
        Keycode::ForwardDel => Some("delete"),
        Keycode::Escape => Some("escape"),
        Keycode::Back => Some("back"),
        Keycode::DpadUp => Some("up"),
        Keycode::DpadDown => Some("down"),
        Keycode::DpadLeft => Some("left"),
        Keycode::DpadRight => Some("right"),
        Keycode::PageUp => Some("pageup"),
        Keycode::PageDown => Some("pagedown"),
        Keycode::MoveHome => Some("home"),
        Keycode::MoveEnd => Some("end"),
        Keycode::Comma => Some(","),
        Keycode::Period => Some("."),
        Keycode::Minus => Some("-"),
        Keycode::Equals => Some("="),
        Keycode::LeftBracket => Some("["),
        Keycode::RightBracket => Some("]"),
        Keycode::Backslash => Some("\\"),
        Keycode::Semicolon => Some(";"),
        Keycode::Apostrophe => Some("'"),
        Keycode::Slash => Some("/"),
        Keycode::Grave => Some("`"),
        Keycode::ShiftLeft => Some(""),
        Keycode::ShiftRight => Some(""),
        Keycode::CtrlLeft => Some(""),
        Keycode::CtrlRight => Some(""),
        Keycode::AltLeft => Some(""),
        Keycode::AltRight => Some(""),
        Keycode::MetaLeft => Some(""),
        Keycode::MetaRight => Some(""),
        Keycode::CapsLock => Some(""),
        Keycode::Other => None,
    }
}

/// The state of the modifier keys during an event, one bit for each.
#[derive(Clone, Copy, Debug, PartialEq, Eq, Structural)]
pub struct MetaState {
    pub bits: u32,
}

impl MetaState {
    pub open spec fn spec_modifiers(self) -> Modifiers {
        Modifiers {
            control: self.bits & META_CTRL_ON != 0,
            alt: self.bits & META_ALT_ON != 0,
            shift: self.bits & META_SHIFT_ON != 0,
            platform: self.bits & META_META_ON != 0,
            function: self.bits & META_FUNCTION_ON != 0,
        }
    }

    pub open spec fn spec_caps_lock_on(self) -> bool {
        self.bits & META_CAPS_LOCK_ON != 0
    }

    pub fn caps_lock_on(self) -> (on: bool)
        ensures
            on == self.spec_caps_lock_on(),
    {
        self.bits & META_CAPS_LOCK_ON != 0
    }
}

pub fn modifiers_from_meta_state(meta_state: MetaState) -> (modifiers: Modifiers)
    ensures
        modifiers == meta_state.spec_modifiers(),
{
    Modifiers {
        control: meta_state.bits & META_CTRL_ON != 0,
        alt: meta_state.bits & META_ALT_ON != 0,
        shift: meta_state.bits & META_SHIFT_ON != 0,
        platform: meta_state.bits & META_META_ON != 0,
        function: meta_state.bits & META_FUNCTION_ON != 0,
    }
}

/// What a meta state says of the modifiers and of caps lock.
pub open spec fn spec_modifiers_changed(meta_state: MetaState) -> ModifiersChangedEvent {
    ModifiersChangedEvent {
        modifiers: meta_state.spec_modifiers(),
        capslock: Capslock { on: meta_state.spec_caps_lock_on() },
    }
}

/// What becomes of a key event at first.
#[derive(Clone, Copy, Debug)]
pub enum KeyPress {
    /// It is left to the system.
    Unhandled,
    /// It changes the modifiers and nothing else.
    Modifier(ModifiersChangedEvent),
    /// It changes the modifiers, and then counts as a stroke of the named key.
    Key { changed: ModifiersChangedEvent, key: &'static str },
}

/// Tells modifier keys, other keys and keys that are not handled apart.
pub fn key_press(keycode: Keycode, meta_state: MetaState) -> (press: KeyPress)
    ensures
        match key_name(keycode) {
            None => press == KeyPress::Unhandled,
            Some(name) => if name.len() == 0 {
                press == KeyPress::Modifier(spec_modifiers_changed(meta_state))
            } else {
                press is Key && press->changed == spec_modifiers_changed(meta_state)
                    && press->key@ == name
            },
        },
{
    let key = match keycode_to_key(keycode) {
        Some(key) => key,
        None => {
            return KeyPress::Unhandled;
        },
    };
    let changed = ModifiersChangedEvent {
        modifiers: modifiers_from_meta_state(meta_state),
        capslock: Capslock { on: meta_state.caps_lock_on() },
    };
    if key.is_empty() {
        KeyPress::Modifier(changed)
    } else {
        KeyPress::Key { changed, key }
    }
}

#[derive(Clone, Copy, Debug, PartialEq, Eq, Structural)]
pub enum KeyAction {
    Down,
    Up,
    Other,
}

/// The event that a stroke is handed on as.
pub open spec fn spec_key_input(action: KeyAction, keystroke: Keystroke) -> Option<PlatformInput> {
    match action {
        KeyAction::Down => Some(
            PlatformInput::KeyDown(
                KeyDownEvent { keystroke, is_held: false, prefer_character_input: false },
            ),
        ),
        KeyAction::Up => Some(PlatformInput::KeyUp(KeyUpEvent { keystroke })),
        KeyAction::Other => None,
    }
}

/// The event that a stroke is handed on as, and whether that makes it handled.
pub fn key_input(action: KeyAction, keystroke: Keystroke) -> (outcome: (
    Option<PlatformInput>,
    InputStatus,
))
    ensures
        outcome.0 == spec_key_input(action, keystroke),
        outcome.1 == if action == KeyAction::Other {
            InputStatus::Unhandled
        } else {
            InputStatus::Handled
        },
{
    match action {
        KeyAction::Down => (
            Some(
                PlatformInput::KeyDown(
                    KeyDownEvent { keystroke, is_held: false, prefer_character_input: false },
                ),
            ),
            InputStatus::Handled,
        ),
        KeyAction::Up => (
            Some(PlatformInput::KeyUp(KeyUpEvent { keystroke })),
            InputStatus::Handled,
        ),
        KeyAction::Other => (None, InputStatus::Unhandled),
    }
}

/// Whether a key that went down types its text: only if nobody stopped the event, and
/// if no modifier but shift is held. `propagate` is what the event's receiver answered,
/// where there is one.
pub open spec fn types_text(propagate: Option<bool>, modifiers: Modifiers) -> bool {
    propagate != Some(false) && modifiers.subset(Modifiers::spec_shift())
}

/// The text that a key types after it went down.
pub fn typed_text(
    propagate: Option<bool>,
    modifiers: Modifiers,
    key_char: Option<String>,
) -> (text: Option<String>)
    ensures
        text == if types_text(propagate, modifiers) {
            key_char
        } else {
            None::<String>
        },
{
    let propagate = match propagate {
        Some(propagate) => propagate,
        None => true,
    };
    if propagate && modifiers.is_subset_of(&Modifiers::shift()) {
        key_char
    } else {
        None
    }
}

/// The text that a stroke types: that of its key, and only where the key goes down.
pub fn text_of_stroke(
    action: KeyAction,
    propagate: Option<bool>,
    modifiers: Modifiers,
    key_char: Option<String>,
) -> (text: Option<String>)
    ensures
        text == if action == KeyAction::Down && types_text(propagate, modifiers) {
            key_char
        } else {
            None::<String>
        },
{
    match action {
        KeyAction::Down => typed_text(propagate, modifiers, key_char),
        _ => None,
    }
}

/// The key maps of the devices seen so far, each under its device's number.
#[verifier::reject_recursive_types(M)]
#[derive(Debug)]
pub struct KeyMaps<M> {
    pub maps: HashMap<i32, M>,
}

/// What it takes to have the key map of a device at hand.
#[derive(Clone, Copy, Debug, PartialEq, Eq, Structural)]
pub enum KeyMapStep {
    /// It is there.
    Ready,
    /// The device's own map has to be loaded.
    LoadOwn,
    /// The device has none. That of the virtual keyboard has to be loaded for it.
    LoadVirtual,
    /// There is none to be had.
    Unavailable,
}

impl<M> View for KeyMaps<M> {
    type V = Map<i32, M>;

    open spec fn view(&self) -> Map<i32, M> {
        self.maps@
    }
}

impl<M> KeyMaps<M> {
    pub fn new() -> (maps: KeyMaps<M>)
        ensures
            maps@ == Map::<i32, M>::empty(),
    {
        KeyMaps { maps: HashMap::new() }
    }

    /// Where a look at the key map of a device begins.
    pub open spec fn first_step(maps: Map<i32, M>, device_id: i32) -> KeyMapStep {
        if maps.contains_key(device_id) {
            KeyMapStep::Ready
        } else {
            KeyMapStep::LoadOwn
        }
    }

    pub fn look_up(&self, device_id: i32) -> (step: KeyMapStep)
        ensures
            step == KeyMaps::first_step(self@, device_id),
    {
        if self.maps.contains_key(&device_id) {
            KeyMapStep::Ready
        } else {
            KeyMapStep::LoadOwn
        }
    }

    /// The maps, and what comes next, after a load that brought `map`.
    pub open spec fn after_load(
        maps: Map<i32, M>,
        device_id: i32,
        step: KeyMapStep,
        map: Option<M>,
    ) -> (Map<i32, M>, KeyMapStep) {
        match (step, map) {
            (KeyMapStep::LoadOwn, Some(map)) => (maps.insert(device_id, map), KeyMapStep::Ready),
            (KeyMapStep::LoadOwn, None) => (maps, KeyMapStep::LoadVirtual),
            (KeyMapStep::LoadVirtual, Some(map)) => (
                maps.insert(device_id, map),
                KeyMapStep::Ready,
            ),
            (KeyMapStep::LoadVirtual, None) => (maps, KeyMapStep::Unavailable),
            _ => (maps, step),
        }
    }

    /// Takes up the outcome of a load, and says what comes next. Whichever map was had is
    /// kept under the number of the device that it is for.
    pub fn loaded(&mut self, device_id: i32, step: KeyMapStep, map: Option<M>) -> (next: KeyMapStep)
        ensures
            (final(self)@, next) == KeyMaps::after_load(old(self)@, device_id, step, map),
    {
        match step {
            KeyMapStep::Ready => KeyMapStep::Ready,
            KeyMapStep::Unavailable => KeyMapStep::Unavailable,
            KeyMapStep::LoadOwn => match map {
                Some(map) => {
                    let _ = self.maps.insert(device_id, map);
                    KeyMapStep::Ready
                },
                None => KeyMapStep::LoadVirtual,
            },
            KeyMapStep::LoadVirtual => match map {
                Some(map) => {
                    let _ = self.maps.insert(device_id, map);
                    KeyMapStep::Ready
                },
                None => KeyMapStep::Unavailable,
            },
        }
    }

    /// The key map of a device, where it is there.
    pub fn get(&self, device_id: i32) -> (map: Option<&M>)
        ensures
            map == if self@.contains_key(device_id) {
                Some(&self@[device_id])
            } else {
                None::<&M>
            },
    {
        self.maps.get(&device_id)
    }
}

impl KeyMapStep {
    pub open spec fn spec_device_to_load(self, device_id: i32) -> Option<i32> {
        match self {
            KeyMapStep::LoadOwn => Some(device_id),
            KeyMapStep::LoadVirtual => Some(VIRTUAL_KEYBOARD_DEVICE_ID),
            _ => None,
        }
    }

    /// The device whose key map this step loads for the given one.
    pub fn device_to_load(self, device_id: i32) -> (device: Option<i32>)
        ensures
            device == self.spec_device_to_load(device_id),
    {
        match self {
            KeyMapStep::LoadOwn => Some(device_id),
            KeyMapStep::LoadVirtual => Some(VIRTUAL_KEYBOARD_DEVICE_ID),
            _ => None,
        }
    }
}

/// What a key map has for a key.
#[derive(Clone, Copy, Debug, PartialEq, Eq, Structural)]
pub enum KeyMapChar {
    Nothing,
    Unicode(char),
    CombiningAccent(char),
}

/// Calls `to_string` of `char`. The text that comes back is the one character.
#[verifier::external_body]
fn char_to_string(character: char) -> (text: String)
    ensures
        text@ == seq![character],
{
    character.to_string()
}

/// The text of a key: that of the character which the map has for it, if the map could
/// be asked and has a full character.
pub fn key_char(lookup: Option<KeyMapChar>) -> (text: Option<String>)
    ensures
        match lookup {
            Some(KeyMapChar::Unicode(character)) => text is Some && text->0@ == seq![character],
            _ => text is None,
        },
{
    match lookup {
        Some(KeyMapChar::Unicode(character)) => Some(char_to_string(character)),
        _ => None,
    }
}

/// A name by its length and its first letter, which tell all names apart.
#[verifier::opaque]
spec fn name_mark(name: Seq<char>) -> int {
    name.len() * 0x11_0000 + name[0] as int
}

/// What the names hold, as far as it takes to tell them apart.
proof fn lemma_name_marks()
    ensures
        ""@.len() == 0,
        "a"@.len() == 1 && name_mark("a"@) == 1 * 0x11_0000 + 'a' as int,
        "b"@.len() == 1 && name_mark("b"@) == 1 * 0x11_0000 + 'b' as int,
        "c"@.len() == 1 && name_mark("c"@) == 1 * 0x11_0000 + 'c' as int,
        "d"@.len() == 1 && name_mark("d"@) == 1 * 0x11_0000 + 'd' as int,
        "e"@.len() == 1 && name_mark("e"@) == 1 * 0x11_0000 + 'e' as int,
        "f"@.len() == 1 && name_mark("f"@) == 1 * 0x11_0000 + 'f' as int,
        "g"@.len() == 1 && name_mark("g"@) == 1 * 0x11_0000 + 'g' as int,
        "h"@.len() == 1 && name_mark("h"@) == 1 * 0x11_0000 + 'h' as int,
        "i"@.len() == 1 && name_mark("i"@) == 1 * 0x11_0000 + 'i' as int,
        "j"@.len() == 1 && name_mark("j"@) == 1 * 0x11_0000 + 'j' as int,
        "k"@.len() == 1 && name_mark("k"@) == 1 * 0x11_0000 + 'k' as int,
        "l"@.len() == 1 && name_mark("l"@) == 1 * 0x11_0000 + 'l' as int,
        "m"@.len() == 1 && name_mark("m"@) == 1 * 0x11_0000 + 'm' as int,
        "n"@.len() == 1 && name_mark("n"@) == 1 * 0x11_0000 + 'n' as int,
        "o"@.len() == 1 && name_mark("o"@) == 1 * 0x11_0000 + 'o' as int,
        "p"@.len() == 1 && name_mark("p"@) == 1 * 0x11_0000 + 'p' as int,
        "q"@.len() == 1 && name_mark("q"@) == 1 * 0x11_0000 + 'q' as int,
        "r"@.len() == 1 && name_mark("r"@) == 1 * 0x11_0000 + 'r' as int,
        "s"@.len() == 1 && name_mark("s"@) == 1 * 0x11_0000 + 's' as int,
        "t"@.len() == 1 && name_mark("t"@) == 1 * 0x11_0000 + 't' as int,
        "u"@.len() == 1 && name_mark("u"@) == 1 * 0x11_0000 + 'u' as int,
        "v"@.len() == 1 && name_mark("v"@) == 1 * 0x11_0000 + 'v' as int,
        "w"@.len() == 1 && name_mark("w"@) == 1 * 0x11_0000 + 'w' as int,
        "x"@.len() == 1 && name_mark("x"@) == 1 * 0x11_0000 + 'x' as int,
        "y"@.len() == 1 && name_mark("y"@) == 1 * 0x11_0000 + 'y' as int,
        "z"@.len() == 1 && name_mark("z"@) == 1 * 0x11_0000 + 'z' as int,
        "0"@.len() == 1 && name_mark("0"@) == 1 * 0x11_0000 + '0' as int,
        "1"@.len() == 1 && name_mark("1"@) == 1 * 0x11_0000 + '1' as int,
        "2"@.len() == 1 && name_mark("2"@) == 1 * 0x11_0000 + '2' as int,
        "3"@.len() == 1 && name_mark("3"@) == 1 * 0x11_0000 + '3' as int,
        "4"@.len() == 1 && name_mark("4"@) == 1 * 0x11_0000 + '4' as int,
        "5"@.len() == 1 && name_mark("5"@) == 1 * 0x11_0000 + '5' as int,
        "6"@.len() == 1 && name_mark("6"@) == 1 * 0x11_0000 + '6' as int,
        "7"@.len() == 1 && name_mark("7"@) == 1 * 0x11_0000 + '7' as int,
        "8"@.len() == 1 && name_mark("8"@) == 1 * 0x11_0000 + '8' as int,
        "9"@.len() == 1 && name_mark("9"@) == 1 * 0x11_0000 + '9' as int,
        "space"@.len() == 5 && name_mark("space"@) == 5 * 0x11_0000 + 's' as int,
        "enter"@.len() == 5 && name_mark("enter"@) == 5 * 0x11_0000 + 'e' as int,
        "tab"@.len() == 3 && name_mark("tab"@) == 3 * 0x11_0000 + 't' as int,
        "backspace"@.len() == 9 && name_mark("backspace"@) == 9 * 0x11_0000 + 'b' as int,
        "delete"@.len() == 6 && name_mark("delete"@) == 6 * 0x11_0000 + 'd' as int,
        "escape"@.len() == 6 && name_mark("escape"@) == 6 * 0x11_0000 + 'e' as int,
        "back"@.len() == 4 && name_mark("back"@) == 4 * 0x11_0000 + 'b' as int,
        "up"@.len() == 2 && name_mark("up"@) == 2 * 0x11_0000 + 'u' as int,
        "down"@.len() == 4 && name_mark("down"@) == 4 * 0x11_0000 + 'd' as int,
        "left"@.len() == 4 && name_mark("left"@) == 4 * 0x11_0000 + 'l' as int,
        "right"@.len() == 5 && name_mark("right"@) == 5 * 0x11_0000 + 'r' as int,
        "pageup"@.len() == 6 && name_mark("pageup"@) == 6 * 0x11_0000 + 'p' as int,
        "pagedown"@.len() == 8 && name_mark("pagedown"@) == 8 * 0x11_0000 + 'p' as int,
        "home"@.len() == 4 && name_mark("home"@) == 4 * 0x11_0000 + 'h' as int,
        "end"@.len() == 3 && name_mark("end"@) == 3 * 0x11_0000 + 'e' as int,
        ","@.len() == 1 && name_mark(","@) == 1 * 0x11_0000 + ',' as int,
        "."@.len() == 1 && name_mark("."@) == 1 * 0x11_0000 + '.' as int,
        "-"@.len() == 1 && name_mark("-"@) == 1 * 0x11_0000 + '-' as int,
        "="@.len() == 1 && name_mark("="@) == 1 * 0x11_0000 + '=' as int,
        "["@.len() == 1 && name_mark("["@) == 1 * 0x11_0000 + '[' as int,
        "]"@.len() == 1 && name_mark("]"@) == 1 * 0x11_0000 + ']' as int,
        "\\"@.len() == 1 && name_mark("\\"@) == 1 * 0x11_0000 + '\\' as int,
        ";"@.len() == 1 && name_mark(";"@) == 1 * 0x11_0000 + ';' as int,
        "'"@.len() == 1 && name_mark("'"@) == 1 * 0x11_0000 + '\'' as int,
        "/"@.len() == 1 && name_mark("/"@) == 1 * 0x11_0000 + '/' as int,
        "`"@.len() == 1 && name_mark("`"@) == 1 * 0x11_0000 + '`' as int,
{
    reveal(name_mark);
    reveal_strlit("");
    reveal_strlit("a");
    reveal_strlit("b");
    reveal_strlit("c");
    reveal_strlit("d");
    reveal_strlit("e");
    reveal_strlit("f");
    reveal_strlit("g");
    reveal_strlit("h");
    reveal_strlit("i");
    reveal_strlit("j");
    reveal_strlit("k");
    reveal_strlit("l");
    reveal_strlit("m");
    reveal_strlit("n");
    reveal_strlit("o");
    reveal_strlit("p");
    reveal_strlit("q");
    reveal_strlit("r");
    reveal_strlit("s");
    reveal_strlit("t");
    reveal_strlit("u");
    reveal_strlit("v");
    reveal_strlit("w");
    reveal_strlit("x");
    reveal_strlit("y");
    reveal_strlit("z");
    reveal_strlit("0");
    reveal_strlit("1");
    reveal_strlit("2");
    reveal_strlit("3");
    reveal_strlit("4");
    reveal_strlit("5");
    reveal_strlit("6");
    reveal_strlit("7");
    reveal_strlit("8");
    reveal_strlit("9");
    reveal_strlit("space");
    reveal_strlit("enter");
    reveal_strlit("tab");
    reveal_strlit("backspace");
    reveal_strlit("delete");
    reveal_strlit("escape");
    reveal_strlit("back");
    reveal_strlit("up");
    reveal_strlit("down");
    reveal_strlit("left");
    reveal_strlit("right");
    reveal_strlit("pageup");
    reveal_strlit("pagedown");
    reveal_strlit("home");
    reveal_strlit("end");
    reveal_strlit(",");
    reveal_strlit(".");
    reveal_strlit("-");
    reveal_strlit("=");
    reveal_strlit("[");
    reveal_strlit("]");
    reveal_strlit("\\");
    reveal_strlit(";");
    reveal_strlit("'");
    reveal_strlit("/");
    reveal_strlit("`");
}

/// The keys with an empty name are the modifier keys.
pub proof fn modifier_keys_have_no_name(keycode: Keycode)
    ensures
        is_modifier_key(keycode) <==> key_name(keycode) is Some && key_name(keycode)->0.len() == 0,
{
    lemma_name_marks();
}

/// Two different keys have different names, but for the modifier keys, which have none,
/// and the two enter keys.
pub proof fn key_names_are_distinct(a: Keycode, b: Keycode)
    requires
        key_name(a) is Some,
        key_name(a)->0.len() > 0,
        key_name(a) == key_name(b),
    ensures
        a == b || (a == Keycode::Enter && b == Keycode::NumpadEnter) || (a == Keycode::NumpadEnter
            && b == Keycode::Enter),
{
    lemma_name_marks();
    assert(name_mark(key_name(a)->0) == name_mark(key_name(b)->0));
}

/// The text of a key is typed with no modifier held and with shift, and with no other.
pub proof fn text_is_typed_with_shift_at_most(propagate: Option<bool>, modifiers: Modifiers)
    ensures
        types_text(propagate, modifiers) <==> propagate != Some(false) && (modifiers
            == Modifiers::spec_none() || modifiers == Modifiers::spec_shift()),
{
}

/// A device's key map is loaded twice at most: its own first, and that of the virtual
/// keyboard only where it has none. Whichever is had is kept under the device's own
/// number and never loaded again, and where neither is had nothing is kept.
pub proof fn key_maps_are_loaded_once<M>(
    maps: Map<i32, M>,
    device_id: i32,
    own: Option<M>,
    fallback: Option<M>,
)
    requires
        !maps.contains_key(device_id),
    ensures
        ({
            let first = KeyMaps::first_step(maps, device_id);
            let (maps_1, second) = KeyMaps::after_load(maps, device_id, first, own);
            let (maps_2, third) = KeyMaps::after_load(maps_1, device_id, second, fallback);
            &&& first.spec_device_to_load(device_id) == Some(device_id)
            &&& own is Some ==> second == KeyMapStep::Ready && maps_1 == maps.insert(
                device_id,
                own->0,
            ) && KeyMaps::first_step(maps_1, device_id) == KeyMapStep::Ready
            &&& own is None ==> maps_1 == maps && second.spec_device_to_load(device_id) == Some(
                VIRTUAL_KEYBOARD_DEVICE_ID,
            )
            &&& own is None && fallback is Some ==> third == KeyMapStep::Ready && maps_2
                == maps.insert(device_id, fallback->0) && KeyMaps::first_step(maps_2, device_id)
                == KeyMapStep::Ready
            &&& own is None && fallback is None ==> third == KeyMapStep::Unavailable && maps_2
                == maps
        }),
{
}

/// Every key has the name that is printed on it or that tells what it does. Modifier keys
/// have an empty name, and no other key has a name at all.
pub proof fn keys_have_their_own_names()
    ensures
        key_name(Keycode::A) == Some("a"@),
        key_name(Keycode::B) == Some("b"@),
        key_name(Keycode::C) == Some("c"@),
        key_name(Keycode::D) == Some("d"@),
        key_name(Keycode::E) == Some("e"@),
        key_name(Keycode::F) == Some("f"@),
        key_name(Keycode::G) == Some("g"@),
        key_name(Keycode::H) == Some("h"@),
        key_name(Keycode::I) == Some("i"@),
        key_name(Keycode::J) == Some("j"@),
        key_name(Keycode::K) == Some("k"@),
        key_name(Keycode::L) == Some("l"@),
        key_name(Keycode::M) == Some("m"@),
        key_name(Keycode::N) == Some("n"@),
        key_name(Keycode::O) == Some("o"@),
        key_name(Keycode::P) == Some("p"@),
        key_name(Keycode::Q) == Some("q"@),
        key_name(Keycode::R) == Some("r"@),
        key_name(Keycode::S) == Some("s"@),
        key_name(Keycode::T) == Some("t"@),
        key_name(Keycode::U) == Some("u"@),
        key_name(Keycode::V) == Some("v"@),
        key_name(Keycode::W) == Some("w"@),
        key_name(Keycode::X) == Some("x"@),
        key_name(Keycode::Y) == Some("y"@),
        key_name(Keycode::Z) == Some("z"@),
        key_name(Keycode::Keycode0) == Some("0"@),
        key_name(Keycode::Keycode1) == Some("1"@),
        key_name(Keycode::Keycode2) == Some("2"@),
        key_name(Keycode::Keycode3) == Some("3"@),
        key_name(Keycode::Keycode4) == Some("4"@),
        key_name(Keycode::Keycode5) == Some("5"@),
        key_name(Keycode::Keycode6) == Some("6"@),
        key_name(Keycode::Keycode7) == Some("7"@),
        key_name(Keycode::Keycode8) == Some("8"@),
        key_name(Keycode::Keycode9) == Some("9"@),
        key_name(Keycode::Space) == Some("space"@),
        key_name(Keycode::Enter) == Some("enter"@),
        key_name(Keycode::NumpadEnter) == Some("enter"@),
        key_name(Keycode::Tab) == Some("tab"@),
        key_name(Keycode::Del) == Some("backspace"@),
        key_name(Keycode::ForwardDel) == Some("delete"@),
        key_name(Keycode::Escape) == Some("escape"@),
        key_name(Keycode::Back) == Some("back"@),
        key_name(Keycode::DpadUp) == Some("up"@),
        key_name(Keycode::DpadDown) == Some("down"@),
        key_name(Keycode::DpadLeft) == Some("left"@),
        key_name(Keycode::DpadRight) == Some("right"@),
        key_name(Keycode::PageUp) == Some("pageup"@),
        key_name(Keycode::PageDown) == Some("pagedown"@),
        key_name(Keycode::MoveHome) == Some("home"@),
        key_name(Keycode::MoveEnd) == Some("end"@),
        key_name(Keycode::Comma) == Some(","@),
        key_name(Keycode::Period) == Some("."@),
        key_name(Keycode::Minus) == Some("-"@),
        key_name(Keycode::Equals) == Some("="@),
        key_name(Keycode::LeftBracket) == Some("["@),
        key_name(Keycode::RightBracket) == Some("]"@),
        key_name(Keycode::Backslash) == Some("\\"@),
        key_name(Keycode::Semicolon) == Some(";"@),
        key_name(Keycode::Apostrophe) == Some("'"@),
        key_name(Keycode::Slash) == Some("/"@),
        key_name(Keycode::Grave) == Some("`"@),
        key_name(Keycode::ShiftLeft) == Some(""@),
        key_name(Keycode::ShiftRight) == Some(""@),
        key_name(Keycode::CtrlLeft) == Some(""@),
        key_name(Keycode::CtrlRight) == Some(""@),
        key_name(Keycode::AltLeft) == Some(""@),
        key_name(Keycode::AltRight) == Some(""@),
        key_name(Keycode::MetaLeft) == Some(""@),
        key_name(Keycode::MetaRight) == Some(""@),
        key_name(Keycode::CapsLock) == Some(""@),
        key_name(Keycode::Other) is None,
{
}

/// The modifier keys are both of shift, control, alt and meta, and caps lock.
pub proof fn the_modifier_keys(keycode: Keycode)
    ensures
        is_modifier_key(keycode) <==> {
            ||| keycode == Keycode::ShiftLeft
            ||| keycode == Keycode::ShiftRight
            ||| keycode == Keycode::CtrlLeft
            ||| keycode == Keycode::CtrlRight
            ||| keycode == Keycode::AltLeft
            ||| keycode == Keycode::AltRight
            ||| keycode == Keycode::MetaLeft
            ||| keycode == Keycode::MetaRight
            ||| keycode == Keycode::CapsLock
        },
{
}

/// Each modifier is held where its own bit is set, whatever the other bits are.
pub proof fn each_modifier_has_its_bit(meta_state: MetaState)
    ensures
        ({
            let held = spec_modifiers_changed(meta_state);
            let bits = meta_state.bits;
            &&& held.modifiers.shift <==> bits & 0x1u32 != 0
            &&& held.modifiers.alt <==> bits & 0x2u32 != 0
            &&& held.modifiers.function <==> bits & 0x8u32 != 0
            &&& held.modifiers.control <==> bits & 0x1000u32 != 0
            &&& held.modifiers.platform <==> bits & 0x1_0000u32 != 0
            &&& held.capslock.on <==> bits & 0x10_0000u32 != 0
            &&& held.modifiers == meta_state.spec_modifiers()
        }),
{
}

/// A stroke is handed on whole: as a press that is not held where the key goes down, as a
/// release where it goes up, and not at all where it does neither.
pub proof fn a_stroke_is_handed_on_whole(keystroke: Keystroke)
    ensures
        ({
            let down = spec_key_input(KeyAction::Down, keystroke);
            &&& down is Some && down->0 is KeyDown
            &&& down->0->KeyDown_0.keystroke == keystroke
            &&& !down->0->KeyDown_0.is_held
            &&& !down->0->KeyDown_0.prefer_character_input
        }),
        ({
            let up = spec_key_input(KeyAction::Up, keystroke);
            &&& up is Some && up->0 is KeyUp
            &&& up->0->KeyUp_0.keystroke == keystroke
        }),
        spec_key_input(KeyAction::Other, keystroke) is None,
{
}

/// A load that is not asked for changes nothing, and whatever is loaded for one device leaves
/// the maps of the others alone.
pub proof fn loads_leave_other_devices_alone<M>(
    maps: Map<i32, M>,
    device_id: i32,
    other: i32,
    step: KeyMapStep,
    map: Option<M>,
)
    requires
        other != device_id,
    ensures
        ({
            let (after, next) = KeyMaps::after_load(maps, device_id, step, map);
            &&& after.contains_key(other) <==> maps.contains_key(other)
            &&& maps.contains_key(other) ==> after[other] == maps[other]
            &&& step == KeyMapStep::Ready || step == KeyMapStep::Unavailable ==> after == maps
                && next == step
        }),
        KeyMapStep::LoadVirtual.spec_device_to_load(device_id) == Some(-1i32),
        KeyMapStep::LoadOwn.spec_device_to_load(device_id) == Some(device_id),
        KeyMapStep::Ready.spec_device_to_load(device_id) is None,
        KeyMapStep::Unavailable.spec_device_to_load(device_id) is None,
{
}

} // verus!
