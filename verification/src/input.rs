//! The input events that a window is handed.

use crate::geometry::Point;
use vstd::prelude::*;

verus! {

/// Which modifier keys are held.
#[derive(Clone, Copy, Debug, PartialEq, Eq, Structural)]
pub struct Modifiers {
    pub control: bool,
    pub alt: bool,
    pub shift: bool,
    pub platform: bool,
    pub function: bool,
}

impl Modifiers {
    pub open spec fn spec_none() -> Modifiers {
        Modifiers { control: false, alt: false, shift: false, platform: false, function: false }
    }

    /// No modifier key held.
    pub fn none() -> (modifiers: Modifiers)
        ensures
            modifiers == Modifiers::spec_none(),
    {
        Modifiers { control: false, alt: false, shift: false, platform: false, function: false }
    }

    pub open spec fn spec_shift() -> Modifiers {
        Modifiers { control: false, alt: false, shift: true, platform: false, function: false }
    }

    /// Only the shift key held.
    pub fn shift() -> (modifiers: Modifiers)
        ensures
            modifiers == Modifiers::spec_shift(),
    {
        Modifiers { control: false, alt: false, shift: true, platform: false, function: false }
    }

    /// Whether every key held here is held in `other` too.
    pub open spec fn subset(self, other: Modifiers) -> bool {
        &&& self.control ==> other.control
        &&& self.alt ==> other.alt
        &&& self.shift ==> other.shift
        &&& self.platform ==> other.platform
        &&& self.function ==> other.function
    }

    pub fn is_subset_of(&self, other: &Modifiers) -> (subset: bool)
        ensures
            subset == self.subset(*other),
    {
        (!self.control || other.control) && (!self.alt || other.alt) && (!self.shift
            || other.shift) && (!self.platform || other.platform) && (!self.function
            || other.function)
    }
}

/// Whether caps lock is on.
#[derive(Clone, Copy, Debug, PartialEq, Eq, Structural)]
pub struct Capslock {
    pub on: bool,
}

#[derive(Clone, Copy, Debug, PartialEq, Eq, Structural)]
pub enum MouseButton {
    Left,
    Right,
}

/// Where a scroll event stands in the scroll that it belongs to.
#[derive(Clone, Copy, Debug, PartialEq, Eq, Structural)]
pub enum TouchPhase {
    Started,
    Moved,
    Ended,
}

/// A key with the modifiers held and the text that it types, if it types any.
#[derive(Clone, Debug)]
pub struct Keystroke {
    pub modifiers: Modifiers,
    pub key: String,
    pub key_char: Option<String>,
}

#[derive(Clone, Copy, Debug, PartialEq, Eq)]
pub struct MouseMoveEvent {
    pub position: Point,
    pub pressed_button: Option<MouseButton>,
    pub modifiers: Modifiers,
}

#[derive(Clone, Copy, Debug, PartialEq, Eq)]
pub struct MouseDownEvent {
    pub button: MouseButton,
    pub position: Point,
    pub modifiers: Modifiers,
    pub click_count: usize,
    pub first_mouse: bool,
}

#[derive(Clone, Copy, Debug, PartialEq, Eq)]
pub struct MouseUpEvent {
    pub button: MouseButton,
    pub position: Point,
    pub modifiers: Modifiers,
    pub click_count: usize,
}

/// A scroll by `delta` logical pixels.
#[derive(Clone, Copy, Debug, PartialEq, Eq)]
pub struct ScrollWheelEvent {
    pub position: Point,
    pub delta: Point,
    pub modifiers: Modifiers,
    pub touch_phase: TouchPhase,
}

#[derive(Clone, Copy, Debug, PartialEq, Eq)]
pub struct ModifiersChangedEvent {
    pub modifiers: Modifiers,
    pub capslock: Capslock,
}

#[derive(Clone, Debug)]
pub struct KeyDownEvent {
    pub keystroke: Keystroke,
    pub is_held: bool,
    pub prefer_character_input: bool,
}

#[derive(Clone, Debug)]
pub struct KeyUpEvent {
    pub keystroke: Keystroke,
}

#[derive(Clone, Debug)]
pub enum PlatformInput {
    MouseMove(MouseMoveEvent),
    MouseDown(MouseDownEvent),
    MouseUp(MouseUpEvent),
    ScrollWheel(ScrollWheelEvent),
    ModifiersChanged(ModifiersChangedEvent),
    KeyDown(KeyDownEvent),
    KeyUp(KeyUpEvent),
}

/// Whether an event was consumed or is left to the system.
#[derive(Clone, Copy, Debug, PartialEq, Eq, Structural)]
pub enum InputStatus {
    Handled,
    Unhandled,
}

/// Nothing held is less than anything held, and of two states of the keys one is part of the
/// other where no key is held in it alone. States that are part of each other are the same.
pub proof fn modifiers_are_compared_key_by_key(a: Modifiers, b: Modifiers)
    ensures
        !(Modifiers::spec_none().control || Modifiers::spec_none().alt
            || Modifiers::spec_none().shift || Modifiers::spec_none().platform
            || Modifiers::spec_none().function),
        Modifiers::spec_shift() == (Modifiers { shift: true, ..Modifiers::spec_none() }),
        a.subset(b) <==> !(a.control && !b.control) && !(a.alt && !b.alt) && !(a.shift
            && !b.shift) && !(a.platform && !b.platform) && !(a.function && !b.function),
        Modifiers::spec_none().subset(a),
        a.subset(b) && b.subset(a) ==> a == b,
{
}

} // verus!
