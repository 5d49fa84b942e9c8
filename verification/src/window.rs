//! The state of a window, and what it decides by it.
//!
//! `H` is the handler through which a text field that has the focus is read and edited.

use crate::callback::restore_callback;
use crate::geometry::{
    positive_part_goes_by_the_sign, positive_part_value, Bounds, Edges, Point, Scalar, Size, TWO_BITS,
};
use crate::ime::{
    editor_call, restore_events, spec_editor_call, take_events, EditorCall, ImeEvent,
};
use crate::input::{Capslock, InputStatus, Modifiers, PlatformInput};
use crate::insets::{baseline, choose_baseline, WindowInsets};
use crate::keyboard::{
    key_name, key_press, spec_modifiers_changed, KeyPress, Keycode, MetaState,
};
use crate::touch::{
    effects_of, elapsed_nanos, fling_of, gesture_after, handle_motion_event, is_long_press, is_tap,
    long_press_inputs, tick_long_press, ClickState, GestureState, MotionAction, MotionEvent,
    MotionOutcome, TouchGesture,
};
use std::collections::VecDeque;
use std::ops::Range;
use vstd::prelude::*;

verus! {

/// How long after a long press the change of focus that it causes is still expected. The
/// menu takes the focus in the same frame, so this covers a slow frame or two.
pub const CONTEXT_MENU_KEYBOARD_HOLD_NANOS: u64 = 500_000_000;

#[derive(Clone, Copy, Debug, PartialEq, Eq, Structural)]
pub enum WindowAppearance {
    Light,
    VibrantLight,
    Dark,
    VibrantDark,
}

/// A window, but for what draws it and whom it calls.
#[verifier::reject_recursive_types(H)]
pub struct AndroidWindow<H> {
    pub bounds: Bounds,
    pub scale_factor: Scalar,
    pub title: String,
    pub input_handler: Option<H>,
    pub is_active: bool,
    pub mouse_position: Point,
    pub modifiers: Modifiers,
    pub capslock: Capslock,
    pub insets: WindowInsets,
    /// What counts as system bars.
    pub stable_insets: Option<Edges<Scalar>>,
    pub click_state: ClickState,
    /// Whether there is a surface to draw on.
    pub surface_configured: bool,
    pub appearance: WindowAppearance,
    /// Whether the keyboard was asked for.
    pub soft_keyboard_requested: bool,
    /// When the keyboard was last held across a change of focus, while that still holds.
    pub soft_keyboard_held_at: Option<u64>,
    /// The selection that was last handed to the input method's editor.
    pub last_ime_selection: Option<Range<usize>>,
    /// The size that the drawable has yet to take, in device pixels.
    pub pending_physical_size: Option<Size<i32>>,
}

/// The scale of a display: that of its density, or 2 where that is not known.
pub fn scale_factor(density_scale: Option<Scalar>) -> (scale: Scalar)
    ensures
        scale == match density_scale {
            Some(scale) => scale,
            None => Scalar { bits: TWO_BITS },
        },
{
    match density_scale {
        Some(scale) => scale,
        None => Scalar { bits: TWO_BITS },
    }
}

#[derive(Clone, Copy, Debug, PartialEq, Eq, Structural)]
pub enum PresentMode {
    /// Never blocks, which matters while the activity comes and goes.
    Mailbox,
}

/// How the surface of a window is set up.
#[derive(Clone, Copy, Debug, PartialEq, Eq)]
pub struct SurfaceConfig {
    pub size: Size<i32>,
    pub transparent: bool,
    pub preferred_present_mode: Option<PresentMode>,
}

pub fn surface_config(size: Size<i32>) -> (config: SurfaceConfig)
    ensures
        config == (SurfaceConfig {
            size,
            transparent: false,
            preferred_present_mode: Some(PresentMode::Mailbox),
        }),
{
    SurfaceConfig { size, transparent: false, preferred_present_mode: Some(PresentMode::Mailbox) }
}

/// How far the replacement of a window's surface got.
#[derive(Clone, Copy, Debug, PartialEq, Eq, Structural)]
pub enum SurfaceReplacement {
    /// There is no native window to put a surface on.
    NoNativeWindow,
    /// There is no GPU context to make one with.
    NoGpuContext,
    /// It was tried and failed.
    Failed,
    /// The new surface is in place.
    Replaced,
}

/// What a look at the window's size found.
#[derive(Clone, Copy, Debug, PartialEq, Eq, Structural)]
pub struct SizeUpdate {
    /// The size or the scale is another one.
    pub changed: bool,
    /// The system bars have to be learnt anew.
    pub reset_insets: bool,
}

#[derive(Clone, Copy, Debug, PartialEq, Eq, Structural)]
pub struct RequestFrameOptions {
    pub require_presentation: bool,
    pub force_render: bool,
}

/// What the next frame is drawn with.
#[derive(Clone, Copy, Debug, PartialEq, Eq)]
pub enum Drawing {
    /// There is nothing to draw on.
    Skip,
    /// Draw, after the drawable has taken the size, if there is one.
    Draw { new_size: Option<Size<i32>> },
}

/// How a window lies on its display.
#[derive(Clone, Copy, Debug, PartialEq, Eq)]
pub enum WindowBounds {
    Fullscreen(Bounds),
}

/// The controls that a window has.
#[derive(Clone, Copy, Debug, PartialEq, Eq, Structural)]
pub struct WindowControls {
    pub fullscreen: bool,
    pub maximize: bool,
    pub minimize: bool,
    pub window_menu: bool,
}

/// The text of the field that has the focus, and the selection in it.
#[derive(Debug)]
pub struct InputSnapshot {
    pub text: String,
    pub selection: Range<usize>,
}

/// The text and the selection of a field, where it has both to give.
pub fn input_snapshot(selection: Option<Range<usize>>, text: Option<String>) -> (snapshot: Option<
    InputSnapshot,
>)
    ensures
        snapshot == match (selection, text) {
            (Some(selection), Some(text)) => Some(InputSnapshot { text, selection }),
            _ => None::<InputSnapshot>,
        },
{
    match (selection, text) {
        (Some(selection), Some(text)) => Some(InputSnapshot { text, selection }),
        _ => None,
    }
}

/// A text for the input method's editor, and the call that hands it over.
#[derive(Debug)]
pub struct EditorUpdate {
    pub text: String,
    pub call: EditorCall,
}

#[derive(Clone, Copy, Debug, PartialEq, Eq, Structural)]
pub enum TextInputStateChange {
    FocusGained,
    FocusLost,
    SelectionChanged,
    ContentChanged,
}

/// What a text field can want of the soft keyboard.
#[derive(Clone, Copy, Debug, PartialEq, Eq, Structural)]
pub enum KeyboardRequest {
    Show,
    Hide,
    Synchronize,
}

/// What a change in a text field asks of the soft keyboard.
pub fn text_input_state_changed(change: TextInputStateChange) -> (request: KeyboardRequest)
    ensures
        request == match change {
            TextInputStateChange::FocusGained => KeyboardRequest::Show,
            TextInputStateChange::FocusLost => KeyboardRequest::Hide,
            TextInputStateChange::SelectionChanged => KeyboardRequest::Synchronize,
            TextInputStateChange::ContentChanged => KeyboardRequest::Synchronize,
        },
{
    match change {
        TextInputStateChange::FocusGained => KeyboardRequest::Show,
        TextInputStateChange::FocusLost => KeyboardRequest::Hide,
        TextInputStateChange::SelectionChanged => KeyboardRequest::Synchronize,
        TextInputStateChange::ContentChanged => KeyboardRequest::Synchronize,
    }
}

impl<H> AndroidWindow<H> {
    /// A window that has just opened.
    pub fn new(size: Size<Scalar>, scale: Scalar, appearance: WindowAppearance) -> (window:
        AndroidWindow<H>)
        ensures
            window.bounds == (Bounds { origin: Point::spec_origin(), size }),
            window.scale_factor == scale,
            window.title@ == Seq::<char>::empty(),
            window.input_handler is None,
            window.is_active,
            window.mouse_position == Point::spec_origin(),
            window.modifiers == Modifiers::spec_none(),
            window.capslock == (Capslock { on: false }),
            window.insets == WindowInsets::spec_none(),
            window.stable_insets is None,
            window.click_state == (ClickState {
                last_position: Point::spec_origin(),
                last_time: None,
                current_count: 0,
            }),
            window.surface_configured,
            window.appearance == appearance,
            !window.soft_keyboard_requested,
            window.soft_keyboard_held_at is None,
            window.last_ime_selection is None,
            window.pending_physical_size is None,
    {
        AndroidWindow {
            bounds: Bounds { origin: Point::origin(), size },
            scale_factor: scale,
            title: String::new(),
            input_handler: None,
            is_active: true,
            mouse_position: Point::origin(),
            modifiers: Modifiers::none(),
            capslock: Capslock { on: false },
            insets: WindowInsets::none(),
            stable_insets: None,
            click_state: ClickState::default(),
            surface_configured: true,
            appearance,
            soft_keyboard_requested: false,
            soft_keyboard_held_at: None,
            last_ime_selection: None,
            pending_physical_size: None,
        }
    }

    /// The window after an attempt to replace its surface.
    pub open spec fn with_surface_created(self, replacement: SurfaceReplacement) -> AndroidWindow<
        H,
    > {
        if replacement == SurfaceReplacement::Replaced {
            AndroidWindow { surface_configured: true, ..self }
        } else {
            self
        }
    }

    /// Takes note of a new surface after the native window was destroyed and made anew.
    /// Answers whether there is one, so that the size has to be looked at.
    pub fn handle_surface_created(&mut self, replacement: SurfaceReplacement) -> (ready: bool)
        ensures
            ready == (replacement == SurfaceReplacement::Replaced),
            *final(self) == old(self).with_surface_created(replacement),
    {
        match replacement {
            SurfaceReplacement::Replaced => {
                self.surface_configured = true;
                true
            },
            _ => false,
        }
    }

    /// The window after its native window went away.
    pub open spec fn with_surface_destroyed(self) -> AndroidWindow<H> {
        AndroidWindow { surface_configured: false, soft_keyboard_requested: false, ..self }
    }

    /// The native window goes away: nothing is drawn until there is a new surface.
    pub fn handle_surface_destroyed(&mut self)
        ensures
            *final(self) == old(self).with_surface_destroyed(),
    {
        self.surface_configured = false;
        self.reset_soft_keyboard_request();
    }

    /// What a look at the window's size finds. A keyboard changes the height alone, and
    /// the system bars have to outlast it. Another width or scale means a rotation or a
    /// new configuration, and then the system bars are learnt anew.
    pub open spec fn size_update(self, logical: Size<Scalar>, scale: Scalar) -> SizeUpdate {
        SizeUpdate {
            changed: !self.bounds.size.equals(logical) || !self.scale_factor.equals(scale),
            reset_insets: self.stable_insets is None || !self.scale_factor.equals(scale)
                || !self.bounds.size.width.equals(logical.width),
        }
    }

    /// Takes up the size and the scale of the window.
    pub fn update_size(&mut self, logical: Size<Scalar>, scale: Scalar) -> (update: SizeUpdate)
        ensures
            update == old(self).size_update(logical, scale),
            *final(self) == (AndroidWindow {
                bounds: Bounds { origin: old(self).bounds.origin, size: logical },
                scale_factor: scale,
                ..*old(self)
            }),
    {
        let same_scale = self.scale_factor.eq_value(scale);
        let changed = !self.bounds.size.eq_value(logical) || !same_scale;
        let reset_insets = self.stable_insets.is_none() || !same_scale
            || !self.bounds.size.width.eq_value(logical.width);
        self.bounds = Bounds { origin: self.bounds.origin, size: logical };
        self.scale_factor = scale;
        SizeUpdate { changed, reset_insets }
    }

    /// The window with a size for the drawable to take.
    pub open spec fn with_pending_size(self, physical: Size<i32>) -> AndroidWindow<H> {
        AndroidWindow { pending_physical_size: Some(physical), ..self }
    }

    /// Leaves a size for the drawable to take with the next frame.
    pub fn set_pending_size(&mut self, physical: Size<i32>)
        ensures
            *final(self) == old(self).with_pending_size(physical),
    {
        self.pending_physical_size = Some(physical);
    }

    /// The window after a look at its size that found `update`.
    pub open spec fn with_size_finished(
        self,
        update: SizeUpdate,
        physical: Size<i32>,
    ) -> AndroidWindow<H> {
        if update.changed {
            self.with_pending_size(physical)
        } else {
            self
        }
    }

    /// Leaves the new size for the drawable where the size or the scale is another one.
    pub fn finish_size_update(&mut self, update: &SizeUpdate, physical: Size<i32>)
        ensures
            *final(self) == old(self).with_size_finished(*update, physical),
    {
        if update.changed {
            self.set_pending_size(physical);
        }
    }

    /// The edges that will count as system bars if `covered` is what is covered now.
    pub fn insets_baseline(&self, covered: Edges<Scalar>, reset: bool) -> (edges: Edges<Scalar>)
        ensures
            edges == baseline(self.stable_insets, covered, reset),
    {
        choose_baseline(self.stable_insets, covered, reset)
    }

    /// The insets where `covered` is covered now, and `growth` is that beyond the system
    /// bars.
    pub open spec fn insets_after(
        self,
        covered: Edges<Scalar>,
        growth: Edges<Scalar>,
        reset: bool,
    ) -> WindowInsets {
        WindowInsets {
            safe_area: baseline(self.stable_insets, covered, reset),
            ime: growth.spec_positive_part(),
        }
    }

    /// The window after its insets were looked at.
    pub open spec fn with_insets(
        self,
        covered: Edges<Scalar>,
        growth: Edges<Scalar>,
        reset: bool,
    ) -> AndroidWindow<H> {
        let next = self.insets_after(covered, growth, reset);
        if next.equals(self.insets) {
            AndroidWindow { stable_insets: Some(next.safe_area), ..self }
        } else {
            AndroidWindow {
                stable_insets: Some(next.safe_area),
                insets: next,
                soft_keyboard_requested: self.soft_keyboard_requested && !next.ime.equals(
                    Edges::<Scalar>::spec_zero(),
                ),
                ..self
            }
        }
    }

    /// Takes up what is covered on each side of the window, and hands out the insets
    /// where they are not what they were. `growth` is `covered` less the edges of
    /// [`AndroidWindow::insets_baseline`]: the first edges are kept as the system bars,
    /// and what grows beyond them is the keyboard. Once the keyboard covers nothing, it
    /// counts as not asked for.
    pub fn update_insets(
        &mut self,
        covered: Edges<Scalar>,
        growth: Edges<Scalar>,
        reset: bool,
    ) -> (changed: Option<WindowInsets>)
        ensures
            *final(self) == old(self).with_insets(covered, growth, reset),
            changed == if old(self).insets_after(covered, growth, reset).equals(
                old(self).insets,
            ) {
                None::<WindowInsets>
            } else {
                Some(old(self).insets_after(covered, growth, reset))
            },
    {
        let safe_area = choose_baseline(self.stable_insets, covered, reset);
        let next = WindowInsets { safe_area, ime: growth.positive_part() };
        self.stable_insets = Some(safe_area);
        if next.eq_value(self.insets) {
            return None;
        }
        self.insets = next;
        if next.ime.eq_value(Edges::<Scalar>::zero()) {
            self.soft_keyboard_requested = false;
        }
        Some(next)
    }

    /// The window after the soft keyboard was asked for.
    pub open spec fn with_keyboard_requested(self) -> AndroidWindow<H> {
        AndroidWindow { soft_keyboard_requested: true, ..self }
    }

    /// Whether the keyboard has to be shown when it is asked for: it was not yet.
    pub open spec fn shows_soft_keyboard(self) -> bool {
        !self.soft_keyboard_requested
    }

    /// Asks for the soft keyboard. Answers whether it was not asked for already, so that
    /// it has to be shown.
    pub fn show_soft_keyboard(&mut self) -> (show: bool)
        ensures
            show == old(self).shows_soft_keyboard(),
            *final(self) == old(self).with_keyboard_requested(),
    {
        let show = !self.soft_keyboard_requested;
        self.soft_keyboard_requested = true;
        show
    }

    /// Asks for the soft keyboard after a tap, if a text field has the focus by then.
    pub fn summon_soft_keyboard(&mut self) -> (show: bool)
        ensures
            show == (old(self).input_handler is Some && old(self).shows_soft_keyboard()),
            *final(self) == if old(self).input_handler is Some {
                old(self).with_keyboard_requested()
            } else {
                *old(self)
            },
    {
        if self.input_handler.is_some() {
            self.show_soft_keyboard()
        } else {
            false
        }
    }

    /// What the editor is opened with: the text and the selection of the field that has
    /// the focus, or an empty text where there is none. Takes note of the selection.
    pub fn open_editor(&mut self, snapshot: Option<InputSnapshot>) -> (update: EditorUpdate)
        ensures
            match snapshot {
                Some(snapshot) => {
                    &&& update.text == snapshot.text
                    &&& update.call == spec_editor_call(snapshot.selection, true)
                    &&& *final(self) == (AndroidWindow {
                        last_ime_selection: Some(snapshot.selection),
                        ..*old(self)
                    })
                },
                None => {
                    &&& update.text@ == Seq::<char>::empty()
                    &&& update.call == spec_editor_call(Range { start: 0, end: 0 }, true)
                    &&& *final(self) == (AndroidWindow {
                        last_ime_selection: Some(Range { start: 0, end: 0 }),
                        ..*old(self)
                    })
                },
            },
    {
        let snapshot = match snapshot {
            Some(snapshot) => snapshot,
            None => InputSnapshot { text: String::new(), selection: Range { start: 0, end: 0 } },
        };
        let call = editor_call(&snapshot.selection, true);
        self.last_ime_selection = Some(snapshot.selection);
        EditorUpdate { text: snapshot.text, call }
    }

    /// Whether the keyboard is held at `now`.
    pub open spec fn holds_soft_keyboard(self, now: u64) -> bool {
        self.soft_keyboard_held_at is Some && elapsed_nanos(self.soft_keyboard_held_at->0, now)
            < CONTEXT_MENU_KEYBOARD_HOLD_NANOS
    }

    /// Whether a focus that is lost at `now` takes the keyboard away.
    pub open spec fn hides_soft_keyboard(self, now: u64) -> bool {
        self.soft_keyboard_requested && !self.holds_soft_keyboard(now)
    }

    /// The window after its text field has lost the focus at `now`.
    pub open spec fn with_focus_lost(self, now: u64) -> AndroidWindow<H> {
        if !self.soft_keyboard_requested {
            self
        } else if self.holds_soft_keyboard(now) {
            AndroidWindow { soft_keyboard_held_at: None, ..self }
        } else {
            AndroidWindow {
                soft_keyboard_held_at: None,
                soft_keyboard_requested: false,
                last_ime_selection: None,
                ..self
            }
        }
    }

    /// Takes note that the text field has lost the focus, and answers whether the keyboard
    /// has to be hidden. It stays where it was not asked for, and once where it is held:
    /// the menu that a long press opens takes the focus, but the field is still in use.
    pub fn hide_soft_keyboard(&mut self, now: u64) -> (hide: bool)
        ensures
            hide == old(self).hides_soft_keyboard(now),
            *final(self) == old(self).with_focus_lost(now),
    {
        if !self.soft_keyboard_requested {
            return false;
        }
        let held_at: Option<u64> = self.soft_keyboard_held_at;
        self.soft_keyboard_held_at = None;
        let held = match held_at {
            Some(held_at) => now.saturating_sub(held_at) < CONTEXT_MENU_KEYBOARD_HOLD_NANOS,
            None => false,
        };
        if held {
            return false;
        }
        self.soft_keyboard_requested = false;
        // The editor is gone, so the next one starts afresh.
        self.last_ime_selection = None;
        true
    }

    pub open spec fn with_keyboard_held(self, now: u64) -> AndroidWindow<H> {
        AndroidWindow { soft_keyboard_held_at: Some(now), ..self }
    }

    /// Keeps the soft keyboard up across the next change of focus.
    pub fn hold_soft_keyboard(&mut self, now: u64)
        ensures
            *final(self) == old(self).with_keyboard_held(now),
    {
        self.soft_keyboard_held_at = Some(now);
    }

    /// Drops a hold that no menu ended up using.
    pub fn release_soft_keyboard(&mut self)
        ensures
            *final(self) == (AndroidWindow { soft_keyboard_held_at: None, ..*old(self) }),
    {
        self.soft_keyboard_held_at = None;
    }

    /// The keyboard counts as not asked for.
    pub fn reset_soft_keyboard_request(&mut self)
        ensures
            *final(self) == (AndroidWindow { soft_keyboard_requested: false, ..*old(self) }),
    {
        self.soft_keyboard_requested = false;
    }

    /// Whether the input method has yet to be told of the selection.
    pub open spec fn selection_is_news(self, selection: Option<Range<usize>>) -> bool {
        selection is Some && self.last_ime_selection != selection
    }

    /// The selection of the field that has the focus, if any, where the input method has
    /// yet to be told of it. The input method places its edits by the selection that it was
    /// last told, whether or not the keyboard counts as asked for. Only a selection that is
    /// news is worth reading the whole text for.
    pub fn selection_news(&self, selection: Option<Range<usize>>) -> (news: Option<Range<usize>>)
        ensures
            news == if self.selection_is_news(selection) {
                selection
            } else {
                None::<Range<usize>>
            },
    {
        let selection = match selection {
            Some(selection) => selection,
            None => {
                return None;
            },
        };
        let known = match &self.last_ime_selection {
            Some(last) => last.start == selection.start && last.end == selection.end,
            None => false,
        };
        if known {
            None
        } else {
            Some(selection)
        }
    }

    /// The window after a selection was told with the text of its field.
    pub open spec fn with_selection_told(
        self,
        selection: Range<usize>,
        text: Option<String>,
    ) -> AndroidWindow<H> {
        if text is Some {
            AndroidWindow { last_ime_selection: Some(selection), ..self }
        } else {
            self
        }
    }

    /// What the input method is told of a selection: the text that it lies in goes with it.
    /// Where the text cannot be read nothing is told, and the selection stays news.
    pub fn tell_selection(&mut self, selection: Range<usize>, text: Option<String>) -> (update:
        Option<EditorUpdate>)
        ensures
            *final(self) == old(self).with_selection_told(selection, text),
            update == match text {
                Some(text) => Some(
                    EditorUpdate { text, call: spec_editor_call(selection, false) },
                ),
                None => None::<EditorUpdate>,
            },
    {
        match text {
            Some(text) => {
                let call = editor_call(&selection, false);
                self.last_ime_selection = Some(selection);
                Some(EditorUpdate { text, call })
            },
            None => None,
        }
    }

    /// Hands out the waiting edits of the input method, with the handler to apply them
    /// to, if there are any and a text field has the focus. Where none has it the edits
    /// keep waiting. The handler goes back with [`AndroidWindow::restore_input_handler`].
    pub fn take_ime_edits(&mut self, pending: &mut VecDeque<ImeEvent>) -> (edits: Option<
        (H, VecDeque<ImeEvent>),
    >)
        ensures
            match (old(self).input_handler, edits) {
                (Some(handler), Some(edits)) => {
                    &&& old(pending)@.len() > 0
                    &&& edits.0 == handler
                    &&& edits.1@ == old(pending)@
                    &&& final(pending)@ == Seq::<ImeEvent>::empty()
                    &&& *final(self) == (AndroidWindow { input_handler: None, ..*old(self) })
                },
                (None, Some(edits)) => false,
                (handler, None) => {
                    &&& handler is None || old(pending)@.len() == 0
                    &&& final(pending)@ == old(pending)@
                    &&& *final(self) == *old(self)
                },
            },
    {
        let events = take_events(pending);
        if events.len() == 0 {
            assert(pending@ =~= old(pending)@);
            return None;
        }
        match self.input_handler.take() {
            Some(handler) => Some((handler, events)),
            None => {
                restore_events(pending, events);
                assert(pending@ =~= old(pending)@);
                None
            },
        }
    }

    pub open spec fn frame_options(self, force_render: bool) -> Option<RequestFrameOptions> {
        if self.surface_configured {
            Some(RequestFrameOptions { require_presentation: true, force_render })
        } else {
            None
        }
    }

    /// What to ask for the next frame with, where there is a surface to draw it on.
    pub fn request_frame(&self, force_render: bool) -> (options: Option<RequestFrameOptions>)
        ensures
            options == self.frame_options(force_render),
    {
        if !self.surface_configured {
            return None;
        }
        Some(RequestFrameOptions { require_presentation: true, force_render })
    }

    /// Takes note whether the window is active, and answers whether that is new.
    pub fn set_active(&mut self, is_active: bool) -> (changed: bool)
        ensures
            changed == (old(self).is_active != is_active),
            *final(self) == (AndroidWindow { is_active, ..*old(self) }),
    {
        let changed = self.is_active != is_active;
        self.is_active = is_active;
        changed
    }

    /// Takes up an appearance, and answers whether it is another one.
    pub fn set_appearance(&mut self, appearance: WindowAppearance) -> (changed: bool)
        ensures
            changed == (old(self).appearance != appearance),
            *final(self) == (AndroidWindow { appearance, ..*old(self) }),
    {
        let changed = self.appearance != appearance;
        self.appearance = appearance;
        changed
    }

    /// Takes the handler out for a call. It goes back with
    /// [`AndroidWindow::restore_input_handler`].
    pub fn take_input_handler(&mut self) -> (handler: Option<H>)
        ensures
            handler == old(self).input_handler,
            *final(self) == (AndroidWindow { input_handler: None, ..*old(self) }),
    {
        self.input_handler.take()
    }

    /// Puts the handler back after a call, unless there is another one by now.
    pub fn restore_input_handler(&mut self, handler: H)
        ensures
            *final(self) == (AndroidWindow {
                input_handler: crate::callback::restored(old(self).input_handler, handler),
                ..*old(self)
            }),
    {
        restore_callback(&mut self.input_handler, handler);
    }

    /// The window with another handler.
    pub open spec fn with_handler(self, handler: H) -> AndroidWindow<H> {
        AndroidWindow { input_handler: Some(handler), ..self }
    }

    /// Puts a handler in place. It does not ask for the soft keyboard: handlers are put in
    /// place every frame, so that would bring back a keyboard that was just dismissed.
    pub fn set_input_handler(&mut self, handler: H)
        ensures
            *final(self) == old(self).with_handler(handler),
    {
        self.input_handler = Some(handler);
    }

    pub fn activate(&mut self)
        ensures
            *final(self) == (AndroidWindow { is_active: true, ..*old(self) }),
    {
        self.is_active = true;
    }

    pub fn set_title(&mut self, title: String)
        ensures
            *final(self) == (AndroidWindow { title, ..*old(self) }),
    {
        self.title = title;
    }

    pub open spec fn drawing(self) -> Drawing {
        if self.surface_configured {
            Drawing::Draw { new_size: self.pending_physical_size }
        } else {
            Drawing::Skip
        }
    }

    /// The window after a frame.
    pub open spec fn with_frame_drawn(self) -> AndroidWindow<H> {
        if self.surface_configured {
            AndroidWindow { pending_physical_size: None, ..self }
        } else {
            self
        }
    }

    /// What the next frame is drawn with. A size that waits is handed out once.
    pub fn draw(&mut self) -> (drawing: Drawing)
        ensures
            drawing == old(self).drawing(),
            *final(self) == old(self).with_frame_drawn(),
    {
        if !self.surface_configured {
            return Drawing::Skip;
        }
        Drawing::Draw { new_size: self.pending_physical_size.take() }
    }

    /// Takes a touch event to the gesture, and says what is to be done for it. The pointer
    /// is where the finger is, and a finger that comes down drops a hold on the keyboard.
    pub fn handle_motion_event(
        &mut self,
        gesture: &mut TouchGesture,
        motion: &MotionEvent,
        now: u64,
    ) -> (outcome: MotionOutcome)
        requires
            is_tap(old(gesture)@, *motion) ==> old(self).click_state.count_at(
                motion.tap_distance,
                now,
            ) <= usize::MAX,
        ensures
            final(gesture)@ == gesture_after(old(gesture)@, *motion, now),
            old(gesture)@.well_formed() ==> final(gesture)@.well_formed(),
            *final(self) == (AndroidWindow {
                mouse_position: motion.sample.position,
                soft_keyboard_held_at: if motion.action == MotionAction::Down {
                    None
                } else {
                    old(self).soft_keyboard_held_at
                },
                click_state: if is_tap(old(gesture)@, *motion) {
                    ClickState {
                        last_position: old(gesture)@->start.position,
                        last_time: Some(now),
                        current_count: old(self).click_state.count_at(
                            motion.tap_distance,
                            now,
                        ) as usize,
                    }
                } else {
                    old(self).click_state
                },
                ..*old(self)
            }),
            outcome.effects@ == effects_of(
                old(gesture)@,
                *motion,
                final(self).click_state.current_count,
            ),
            outcome.fling == fling_of(old(gesture)@, *motion),
            outcome.status == if motion.action == MotionAction::Other {
                InputStatus::Unhandled
            } else {
                InputStatus::Handled
            },
    {
        self.mouse_position = motion.sample.position;
        match motion.action {
            MotionAction::Down => {
                self.release_soft_keyboard();
            },
            _ => {},
        }
        handle_motion_event(gesture, &mut self.click_state, motion, now)
    }

    /// The window after a frame in which a press may have become a long press.
    pub open spec fn with_press_ticked(self, state: GestureState, now: u64) -> AndroidWindow<H> {
        if is_long_press(state, now) {
            self.with_keyboard_held(now)
        } else {
            self
        }
    }

    /// Fires the long press of the gesture once it is due, and hands out the clicks that
    /// it stands for. They open a menu that takes the focus, so the keyboard is held.
    pub fn tick_long_press(&mut self, gesture: &mut TouchGesture, now: u64) -> (inputs: Vec<
        PlatformInput,
    >)
        ensures
            *final(self) == old(self).with_press_ticked(old(gesture)@, now),
            is_long_press(old(gesture)@, now) ==> {
                &&& final(gesture)@ == GestureState::LongPress
                &&& inputs@ == long_press_inputs(old(gesture)@->start.position)
            },
            !is_long_press(old(gesture)@, now) ==> {
                &&& *final(gesture) == *old(gesture)
                &&& inputs@ == Seq::<PlatformInput>::empty()
            },
    {
        let inputs = tick_long_press(gesture, now);
        if inputs.len() > 0 {
            self.hold_soft_keyboard(now);
        }
        inputs
    }

    /// Takes note of the modifiers of a key event, unless the key is left to the system,
    /// and says what becomes of the event.
    pub fn handle_key_event(&mut self, keycode: Keycode, meta_state: MetaState) -> (press: KeyPress)
        ensures
            *final(self) == if key_name(keycode) is Some {
                AndroidWindow {
                    modifiers: spec_modifiers_changed(meta_state).modifiers,
                    capslock: spec_modifiers_changed(meta_state).capslock,
                    ..*old(self)
                }
            } else {
                *old(self)
            },
            match key_name(keycode) {
                None => press == KeyPress::Unhandled,
                Some(name) => if name.len() == 0 {
                    press == KeyPress::Modifier(spec_modifiers_changed(meta_state))
                } else {
                    press is Key && press->changed == spec_modifiers_changed(meta_state)
                        && press->key@ == name
                },
            },
    {
        let press = key_press(keycode, meta_state);
        match press {
            KeyPress::Unhandled => {},
            KeyPress::Modifier(changed) => {
                self.modifiers = changed.modifiers;
                self.capslock = changed.capslock;
            },
            KeyPress::Key { changed, key } => {
                self.modifiers = changed.modifiers;
                self.capslock = changed.capslock;
            },
        }
        press
    }

    pub fn bounds(&self) -> (bounds: Bounds)
        ensures
            bounds == self.bounds,
    {
        self.bounds
    }

    /// A window fills the display.
    pub fn window_bounds(&self) -> (bounds: WindowBounds)
        ensures
            bounds == WindowBounds::Fullscreen(self.bounds),
    {
        WindowBounds::Fullscreen(self.bounds)
    }

    pub fn content_size(&self) -> (size: Size<Scalar>)
        ensures
            size == self.bounds.size,
    {
        self.bounds.size
    }

    pub fn scale_factor(&self) -> (scale: Scalar)
        ensures
            scale == self.scale_factor,
    {
        self.scale_factor
    }

    pub fn appearance(&self) -> (appearance: WindowAppearance)
        ensures
            appearance == self.appearance,
    {
        self.appearance
    }

    pub fn mouse_position(&self) -> (position: Point)
        ensures
            position == self.mouse_position,
    {
        self.mouse_position
    }

    pub fn modifiers(&self) -> (modifiers: Modifiers)
        ensures
            modifiers == self.modifiers,
    {
        self.modifiers
    }

    pub fn capslock(&self) -> (capslock: Capslock)
        ensures
            capslock == self.capslock,
    {
        self.capslock
    }

    pub fn is_active(&self) -> (active: bool)
        ensures
            active == self.is_active,
    {
        self.is_active
    }

    pub fn insets(&self) -> (insets: WindowInsets)
        ensures
            insets == self.insets,
    {
        self.insets
    }

    pub fn is_maximized(&self) -> (maximized: bool)
        ensures
            maximized,
    {
        true
    }

    pub fn is_fullscreen(&self) -> (fullscreen: bool)
        ensures
            fullscreen,
    {
        true
    }

    /// No finger hovers.
    pub fn is_hovered(&self) -> (hovered: bool)
        ensures
            !hovered,
    {
        false
    }

    /// The system draws no controls for a window.
    pub fn window_controls(&self) -> (controls: WindowControls)
        ensures
            controls == (WindowControls {
                fullscreen: false,
                maximize: false,
                minimize: false,
                window_menu: false,
            }),
    {
        WindowControls { fullscreen: false, maximize: false, minimize: false, window_menu: false }
    }
}

/// A hold on the keyboard outlasts one loss of focus that comes soon after it, and no
/// more: the next one takes the keyboard away.
pub proof fn a_hold_outlasts_one_loss_of_focus<H>(
    window: AndroidWindow<H>,
    held_at: u64,
    now: u64,
    later: u64,
)
    requires
        window.soft_keyboard_requested,
        elapsed_nanos(held_at, now) < CONTEXT_MENU_KEYBOARD_HOLD_NANOS,
    ensures
        !window.with_keyboard_held(held_at).hides_soft_keyboard(now),
        window.with_keyboard_held(held_at).with_focus_lost(now).soft_keyboard_requested,
        window.with_keyboard_held(held_at).with_focus_lost(now).last_ime_selection
            == window.last_ime_selection,
        window.with_keyboard_held(held_at).with_focus_lost(now).hides_soft_keyboard(later),
{
}

/// A hold that is older than half a second keeps no keyboard.
pub proof fn an_old_hold_keeps_nothing<H>(window: AndroidWindow<H>, held_at: u64, now: u64)
    requires
        window.soft_keyboard_requested,
        elapsed_nanos(held_at, now) >= CONTEXT_MENU_KEYBOARD_HOLD_NANOS,
    ensures
        window.with_keyboard_held(held_at).hides_soft_keyboard(now),
        !window.with_keyboard_held(held_at).with_focus_lost(now).soft_keyboard_requested,
        window.with_keyboard_held(held_at).with_focus_lost(now).last_ime_selection is None,
{
}

/// The keyboard stays up behind the menu that a long press opens.
pub proof fn a_long_press_keeps_the_keyboard<H>(
    window: AndroidWindow<H>,
    state: GestureState,
    fired_at: u64,
    now: u64,
)
    requires
        is_long_press(state, fired_at),
        elapsed_nanos(fired_at, now) < CONTEXT_MENU_KEYBOARD_HOLD_NANOS,
    ensures
        !window.with_press_ticked(state, fired_at).hides_soft_keyboard(now),
        window.with_press_ticked(state, fired_at).with_focus_lost(now).soft_keyboard_requested
            == window.soft_keyboard_requested,
{
}

/// The input method is told of a selection once: it is no news again until another one
/// has been told or the keyboard has been taken away.
pub proof fn a_selection_is_told_once<H>(
    window: AndroidWindow<H>,
    selection: Range<usize>,
    other: Range<usize>,
    text: String,
    now: u64,
)
    requires
        selection != other,
    ensures
        !window.with_selection_told(selection, Some(text)).selection_is_news(Some(selection)),
        window.with_selection_told(selection, Some(text)).selection_is_news(Some(other)),
        !window.selection_is_news(None),
        window.hides_soft_keyboard(now) ==> window.with_focus_lost(now).selection_is_news(
            Some(selection),
        ),
{
}

/// A selection whose text cannot be read is not told, and so it stays news until the text
/// can be read.
pub proof fn an_untold_selection_stays_news<H>(window: AndroidWindow<H>, selection: Range<usize>)
    ensures
        window.with_selection_told(selection, None) == window,
        window.selection_is_news(Some(selection)) ==> window.with_selection_told(
            selection,
            None,
        ).selection_is_news(Some(selection)),
{
}

/// A keyboard that comes or goes changes the height alone, and the system bars are kept.
/// Another width or another scale has them learnt anew.
pub proof fn a_height_change_keeps_the_system_bars<H>(
    window: AndroidWindow<H>,
    logical: Size<Scalar>,
    scale: Scalar,
)
    ensures
        window.stable_insets is Some && window.bounds.size.width.equals(logical.width)
            && window.scale_factor.equals(scale) <==> !window.size_update(
            logical,
            scale,
        ).reset_insets,
        window.size_update(logical, scale).reset_insets && window.stable_insets is Some
            ==> window.size_update(logical, scale).changed,
{
}

/// No side is a NaN.
pub open spec fn is_numeric(edges: Edges<Scalar>) -> bool {
    &&& !edges.top.spec_is_nan()
    &&& !edges.right.spec_is_nan()
    &&& !edges.bottom.spec_is_nan()
    &&& !edges.left.spec_is_nan()
}

/// Where the same is covered as before, nothing is reported again and nothing changes. A
/// NaN among the insets is never the same.
pub proof fn the_same_insets_are_reported_once<H>(
    window: AndroidWindow<H>,
    covered: Edges<Scalar>,
    growth: Edges<Scalar>,
    reset: bool,
)
    requires
        is_numeric(window.insets_after(covered, growth, reset).safe_area),
        is_numeric(window.insets_after(covered, growth, reset).ime),
    ensures
        ({
            let next = window.with_insets(covered, growth, reset);
            &&& next.insets_after(covered, growth, false) == window.insets_after(
                covered,
                growth,
                reset,
            )
            &&& next.insets_after(covered, growth, false).equals(next.insets)
            &&& next.with_insets(covered, growth, false) == next
        }),
{
}

/// Whatever is covered, the window ends up with system bars to compare with, and insets
/// that are reported have them as their safe area.
pub proof fn the_safe_area_is_the_system_bars<H>(
    window: AndroidWindow<H>,
    covered: Edges<Scalar>,
    growth: Edges<Scalar>,
    reset: bool,
)
    ensures
        ({
            let next = window.with_insets(covered, growth, reset);
            let reported = !window.insets_after(covered, growth, reset).equals(window.insets);
            &&& next.stable_insets is Some
            &&& reported ==> next.insets.safe_area == next.stable_insets->0
            &&& !reported ==> next.insets == window.insets
        }),
{
}

/// Once its surface is gone a window neither asks for frames nor draws any, whatever
/// attempts at a new one fail, until one is in place.
pub proof fn nothing_is_drawn_without_a_surface<H>(
    window: AndroidWindow<H>,
    attempt: SurfaceReplacement,
    force_render: bool,
)
    ensures
        ({
            let gone = window.with_surface_destroyed();
            let next = gone.with_surface_created(attempt);
            &&& gone.drawing() == Drawing::Skip && gone.frame_options(force_render) is None
            &&& gone.with_frame_drawn() == gone
            &&& attempt != SurfaceReplacement::Replaced ==> next == gone
            &&& attempt == SurfaceReplacement::Replaced ==> next.drawing() is Draw
                && next.frame_options(force_render) is Some
        }),
{
}

/// A new size reaches the drawable with the first frame that is drawn after it, and only
/// with that one; it waits out the time in which there is no surface.
pub proof fn a_new_size_is_drawn_once<H>(window: AndroidWindow<H>, physical: Size<i32>)
    ensures
        ({
            let resized = window.with_pending_size(physical);
            let back = resized.with_surface_destroyed().with_frame_drawn().with_surface_created(
                SurfaceReplacement::Replaced,
            );
            &&& window.surface_configured ==> resized.drawing() == (Drawing::Draw {
                new_size: Some(physical),
            })
            &&& window.surface_configured ==> resized.with_frame_drawn().drawing() == (
            Drawing::Draw { new_size: None })
            &&& back.drawing() == (Drawing::Draw { new_size: Some(physical) })
        }),
{
}

/// A keyboard that was asked for is not shown again, one that was dismissed comes back when
/// it is asked for, and a handler that is put in place asks for nothing.
pub proof fn a_keyboard_is_shown_when_asked_for<H>(
    window: AndroidWindow<H>,
    handler: H,
    now: u64,
)
    ensures
        !window.with_keyboard_requested().shows_soft_keyboard(),
        window.hides_soft_keyboard(now) ==> window.with_focus_lost(now).shows_soft_keyboard(),
        window.with_handler(handler).soft_keyboard_requested == window.soft_keyboard_requested,
        window.hides_soft_keyboard(now) ==> !window.with_focus_lost(now).with_handler(
            handler,
        ).soft_keyboard_requested,
{
}

/// `growth` is more than 0, less than 0 or 0 where `covered` is more than `bars`, less
/// than it or the same, as every correctly rounded difference is.
pub open spec fn measures_growth(growth: Scalar, covered: Scalar, bars: Scalar) -> bool {
    &&& !growth.spec_is_nan()
    &&& growth.value() > 0 <==> covered.value() > bars.value()
    &&& growth.value() < 0 <==> covered.value() < bars.value()
}

/// A side is reported as covered by the keyboard where more of it is covered than system
/// bars cover, and nowhere else; where all of it is theirs the keyboard counts as gone.
pub proof fn the_keyboard_is_what_grows<H>(
    window: AndroidWindow<H>,
    covered: Edges<Scalar>,
    growth: Edges<Scalar>,
    reset: bool,
)
    requires
        ({
            let bars = baseline(window.stable_insets, covered, reset);
            &&& measures_growth(growth.top, covered.top, bars.top)
            &&& measures_growth(growth.right, covered.right, bars.right)
            &&& measures_growth(growth.bottom, covered.bottom, bars.bottom)
            &&& measures_growth(growth.left, covered.left, bars.left)
        }),
    ensures
        ({
            let next = window.insets_after(covered, growth, reset);
            let none = Edges::<Scalar>::spec_zero();
            &&& next.ime.top.value() > 0 <==> covered.top.value() > next.safe_area.top.value()
            &&& next.ime.right.value() > 0 <==> covered.right.value()
                > next.safe_area.right.value()
            &&& next.ime.bottom.value() > 0 <==> covered.bottom.value()
                > next.safe_area.bottom.value()
            &&& next.ime.left.value() > 0 <==> covered.left.value() > next.safe_area.left.value()
            &&& next.safe_area == covered ==> next.ime.equals(none)
            &&& next.ime.equals(none) && !next.equals(window.insets) ==> !window.with_insets(
                covered,
                growth,
                reset,
            ).soft_keyboard_requested
        }),
{
    positive_part_value(growth.top);
    positive_part_value(growth.right);
    positive_part_value(growth.bottom);
    positive_part_value(growth.left);
}

/// A change to a window is to what it is about, and leaves everything else as it was.
pub proof fn a_change_leaves_the_rest_alone<H>(
    window: AndroidWindow<H>,
    replacement: SurfaceReplacement,
    physical: Size<i32>,
    update: SizeUpdate,
    selection: Range<usize>,
    text: Option<String>,
    handler: H,
    state: GestureState,
    now: u64,
)
    ensures
        ({
            let next = window.with_surface_created(replacement);
            next == (AndroidWindow { surface_configured: next.surface_configured, ..window })
        }),
        ({
            let next = window.with_surface_destroyed();
            next == (AndroidWindow {
                surface_configured: next.surface_configured,
                soft_keyboard_requested: next.soft_keyboard_requested,
                ..window
            })
        }),
        ({
            let next = window.with_size_finished(update, physical);
            next == (AndroidWindow { pending_physical_size: next.pending_physical_size, ..window })
        }),
        ({
            let next = window.with_pending_size(physical);
            next == (AndroidWindow { pending_physical_size: next.pending_physical_size, ..window })
        }),
        ({
            let next = window.with_frame_drawn();
            next == (AndroidWindow { pending_physical_size: next.pending_physical_size, ..window })
        }),
        ({
            let next = window.with_keyboard_requested();
            next == (AndroidWindow {
                soft_keyboard_requested: next.soft_keyboard_requested,
                ..window
            })
        }),
        ({
            let next = window.with_focus_lost(now);
            next == (AndroidWindow {
                soft_keyboard_requested: next.soft_keyboard_requested,
                soft_keyboard_held_at: next.soft_keyboard_held_at,
                last_ime_selection: next.last_ime_selection,
                ..window
            })
        }),
        ({
            let next = window.with_keyboard_held(now);
            next == (AndroidWindow { soft_keyboard_held_at: next.soft_keyboard_held_at, ..window })
        }),
        ({
            let next = window.with_press_ticked(state, now);
            next == (AndroidWindow { soft_keyboard_held_at: next.soft_keyboard_held_at, ..window })
        }),
        ({
            let next = window.with_selection_told(selection, text);
            next == (AndroidWindow { last_ime_selection: next.last_ime_selection, ..window })
        }),
        ({
            let next = window.with_handler(handler);
            next == (AndroidWindow { input_handler: next.input_handler, ..window })
        }),
{
}

/// A surface that is put in place is there and one that failed changes nothing. When the
/// native window goes away there is none, and the keyboard counts as not asked for.
pub proof fn a_surface_comes_and_goes<H>(
    window: AndroidWindow<H>,
    replacement: SurfaceReplacement,
    force_render: bool,
)
    ensures
        window.with_surface_created(SurfaceReplacement::Replaced).surface_configured,
        replacement != SurfaceReplacement::Replaced ==> window.with_surface_created(
            replacement,
        ).surface_configured == window.surface_configured,
        !window.with_surface_destroyed().surface_configured,
        !window.with_surface_destroyed().soft_keyboard_requested,
        window.surface_configured <==> window.frame_options(force_render) is Some,
        window.surface_configured ==> window.frame_options(force_render)->0.require_presentation
            && window.frame_options(force_render)->0.force_render == force_render,
        window.surface_configured <==> window.drawing() is Draw,
        window.surface_configured ==> window.drawing()->new_size == window.pending_physical_size,
{
}

/// A size or a scale that is not the same as before is a change, whichever of them it is, and
/// then and only then the drawable has a new size to take. A frame takes it, if there is a
/// surface to draw on.
pub proof fn a_new_size_waits_for_a_frame<H>(
    window: AndroidWindow<H>,
    logical: Size<Scalar>,
    scale: Scalar,
    update: SizeUpdate,
    physical: Size<i32>,
)
    ensures
        !window.size_update(logical, scale).changed <==> window.bounds.size.width.equals(
            logical.width,
        ) && window.bounds.size.height.equals(logical.height) && window.scale_factor.equals(scale),
        window.with_pending_size(physical).pending_physical_size == Some(physical),
        update.changed ==> window.with_size_finished(update, physical).pending_physical_size
            == Some(physical),
        !update.changed ==> window.with_size_finished(update, physical).pending_physical_size
            == window.pending_physical_size,
        window.surface_configured ==> window.with_frame_drawn().pending_physical_size is None,
        !window.surface_configured ==> window.with_frame_drawn().pending_physical_size
            == window.pending_physical_size,
{
}

/// A keyboard that was asked for is taken away when the focus is lost, unless a hold on it
/// began less than half a second before. Either way the hold is used up, and with the keyboard
/// goes what the input method was told. Where no keyboard was asked for nothing happens.
pub proof fn a_lost_focus_takes_the_keyboard<H>(window: AndroidWindow<H>, now: u64)
    ensures
        ({
            let held = window.soft_keyboard_held_at is Some && now
                - window.soft_keyboard_held_at->0 < 500_000_000;
            let next = window.with_focus_lost(now);
            &&& window.holds_soft_keyboard(now) <==> held
            &&& window.hides_soft_keyboard(now) <==> window.soft_keyboard_requested && !held
            &&& window.soft_keyboard_requested ==> next.soft_keyboard_held_at is None
            &&& window.soft_keyboard_requested && held ==> next.soft_keyboard_requested
                && next.last_ime_selection == window.last_ime_selection
            &&& window.soft_keyboard_requested && !held ==> !next.soft_keyboard_requested
                && next.last_ime_selection is None
            &&& !window.soft_keyboard_requested ==> next == window
        }),
{
}

/// The keyboard counts as asked for once it was, and is shown where it did not before. A hold
/// begins when it is taken, and a press of half a second takes one.
pub proof fn a_long_press_takes_a_hold<H>(window: AndroidWindow<H>, state: GestureState, now: u64)
    ensures
        window.with_keyboard_requested().soft_keyboard_requested,
        window.shows_soft_keyboard() <==> !window.soft_keyboard_requested,
        window.with_keyboard_held(now).soft_keyboard_held_at == Some(now),
        state is Pending && now - state->started_at >= 500_000_000 ==> window.with_press_ticked(
            state,
            now,
        ).soft_keyboard_held_at == Some(now),
        !(state is Pending && now - state->started_at >= 500_000_000)
            ==> window.with_press_ticked(state, now) == window,
{
}

/// A selection is news where either end is not what the input method was last told, or where
/// it was told of none. It is told with its text and then remembered.
pub proof fn a_selection_is_news_until_told<H>(
    window: AndroidWindow<H>,
    selection: Range<usize>,
    text: Option<String>,
    handler: H,
)
    ensures
        !window.selection_is_news(None),
        window.last_ime_selection is None ==> window.selection_is_news(Some(selection)),
        window.last_ime_selection is Some ==> (window.selection_is_news(Some(selection)) <==> {
            ||| selection.start != window.last_ime_selection->0.start
            ||| selection.end != window.last_ime_selection->0.end
        }),
        text is Some ==> window.with_selection_told(selection, text).last_ime_selection == Some(
            selection,
        ),
        text is None ==> window.with_selection_told(selection, text).last_ime_selection
            == window.last_ime_selection,
        window.with_handler(handler).input_handler == Some(handler),
{
}

/// What grows beyond the system bars is reported as the keyboard, side by side and by as much
/// as it grows; what shrinks is not. New insets take the place of the old ones, and a
/// keyboard that covers nothing in them counts as not asked for. Nothing but the insets, the
/// system bars and that request changes.
pub proof fn the_keyboard_covers_what_grew<H>(
    window: AndroidWindow<H>,
    covered: Edges<Scalar>,
    growth: Edges<Scalar>,
    reset: bool,
)
    ensures
        ({
            let after = window.insets_after(covered, growth, reset);
            let next = window.with_insets(covered, growth, reset);
            let gone = after.ime.top.equals(Scalar { bits: 0 }) && after.ime.right.equals(
                Scalar { bits: 0 },
            ) && after.ime.bottom.equals(Scalar { bits: 0 }) && after.ime.left.equals(
                Scalar { bits: 0 },
            );
            let same = after.safe_area.equals(window.insets.safe_area) && after.ime.equals(
                window.insets.ime,
            );
            &&& after.safe_area == baseline(window.stable_insets, covered, reset)
            &&& growth.top.bits < 0x8000_0000 ==> after.ime.top == growth.top
            &&& growth.top.bits >= 0x8000_0000 ==> after.ime.top.bits == 0
            &&& growth.right.bits < 0x8000_0000 ==> after.ime.right == growth.right
            &&& growth.right.bits >= 0x8000_0000 ==> after.ime.right.bits == 0
            &&& growth.bottom.bits < 0x8000_0000 ==> after.ime.bottom == growth.bottom
            &&& growth.bottom.bits >= 0x8000_0000 ==> after.ime.bottom.bits == 0
            &&& growth.left.bits < 0x8000_0000 ==> after.ime.left == growth.left
            &&& growth.left.bits >= 0x8000_0000 ==> after.ime.left.bits == 0
            &&& next.stable_insets == Some(after.safe_area)
            &&& same ==> next.insets == window.insets && next.soft_keyboard_requested
                == window.soft_keyboard_requested
            &&& !same ==> next.insets == after
            &&& !same && gone ==> !next.soft_keyboard_requested
            &&& !same && !gone ==> next.soft_keyboard_requested == window.soft_keyboard_requested
            &&& next == (AndroidWindow {
                insets: next.insets,
                stable_insets: next.stable_insets,
                soft_keyboard_requested: next.soft_keyboard_requested,
                ..window
            })
        }),
{
    positive_part_goes_by_the_sign(growth);
}

} // verus!
