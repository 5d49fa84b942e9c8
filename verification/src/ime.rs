//! Edits from the input method, queued until a text field takes them, and the calls
//! that keep the input method's copy of the text up to date.

use std::collections::VecDeque;
use std::ops::Range;
use vstd::prelude::*;

verus! {

/// An edit that the input method asks for. Ranges count UTF-16 units.
#[derive(Debug)]
pub enum ImeEvent {
    Replace { range: Range<usize>, text: String },
    SetSelection(Range<usize>),
}

/// Queues an event behind those that wait.
pub fn push_event(pending: &mut VecDeque<ImeEvent>, event: ImeEvent)
    ensures
        final(pending)@ == old(pending)@.push(event),
{
    pending.push_back(event);
}

/// Hands over all waiting events, in the order in which they came.
pub fn take_events(pending: &mut VecDeque<ImeEvent>) -> (events: VecDeque<ImeEvent>)
    ensures
        events@ == old(pending)@,
        final(pending)@ == Seq::<ImeEvent>::empty(),
{
    let mut events: VecDeque<ImeEvent> = VecDeque::new();
    std::mem::swap(&mut events, pending);
    events
}

/// The queue with events put back before those that came since.
pub open spec fn restored(pending: Seq<ImeEvent>, events: Seq<ImeEvent>) -> Seq<ImeEvent> {
    events + pending
}

/// Puts events that could not be applied back before those that came since.
pub fn restore_events(pending: &mut VecDeque<ImeEvent>, events: VecDeque<ImeEvent>)
    ensures
        final(pending)@ == restored(old(pending)@, events@),
{
    let mut events = events;
    events.append(pending);
    std::mem::swap(&mut events, pending);
}

/// Drops all waiting events.
pub fn clear_events(pending: &mut VecDeque<ImeEvent>)
    ensures
        final(pending)@ == Seq::<ImeEvent>::empty(),
{
    pending.clear();
}

/// The queue after several more events.
pub open spec fn pushed_all(pending: Seq<ImeEvent>, events: Seq<ImeEvent>) -> Seq<ImeEvent>
    decreases events.len(),
{
    if events.len() == 0 {
        pending
    } else {
        pushed_all(pending, events.drop_last()).push(events.last())
    }
}

proof fn lemma_pushed_all(pending: Seq<ImeEvent>, events: Seq<ImeEvent>)
    ensures
        pushed_all(pending, events) == pending + events,
    decreases events.len(),
{
    if events.len() > 0 {
        lemma_pushed_all(pending, events.drop_last());
        assert(pending + events =~= (pending + events.drop_last()).push(events.last()));
    } else {
        assert(pending + events =~= pending);
    }
}

/// Events that are taken and put back end up where they would be had they never been
/// taken, whatever came in between: none is lost, and none overtakes another.
pub proof fn restoring_undoes_taking(waiting: Seq<ImeEvent>, later: Seq<ImeEvent>)
    ensures
        restored(pushed_all(Seq::<ImeEvent>::empty(), later), waiting) == pushed_all(
            waiting,
            later,
        ),
{
    lemma_pushed_all(Seq::<ImeEvent>::empty(), later);
    lemma_pushed_all(waiting, later);
    assert(Seq::<ImeEvent>::empty() + later =~= later);
}

/// An offset from the input method; below 0 it counts as 0.
pub open spec fn spec_offset(offset: i32) -> int {
    if offset < 0 {
        0
    } else {
        offset as int
    }
}

fn offset_from_java(offset: i32) -> (position: usize)
    ensures
        position == spec_offset(offset),
{
    if offset < 0 {
        0
    } else {
        offset as usize
    }
}

/// The `before` units from `start` on, held within the range of a `usize`.
pub open spec fn replaced_range(start: i32, before: i32) -> Range<usize> {
    Range {
        start: spec_offset(start) as usize,
        end: if spec_offset(start) + spec_offset(before) > usize::MAX {
            usize::MAX
        } else {
            (spec_offset(start) + spec_offset(before)) as usize
        },
    }
}

/// Queues the edit that puts `replacement` in the place of the `before` units from
/// `start` on.
pub fn native_replace_text(
    pending: &mut VecDeque<ImeEvent>,
    start: i32,
    before: i32,
    replacement: String,
)
    ensures
        final(pending)@ == old(pending)@.push(
            ImeEvent::Replace { range: replaced_range(start, before), text: replacement },
        ),
{
    let start: usize = offset_from_java(start);
    let before: usize = offset_from_java(before);
    push_event(
        pending,
        ImeEvent::Replace {
            range: Range { start, end: start.saturating_add(before) },
            text: replacement,
        },
    );
}

/// The units between two offsets, whichever comes first.
pub open spec fn selected_range(start: i32, end: i32) -> Range<usize> {
    if spec_offset(start) <= spec_offset(end) {
        Range { start: spec_offset(start) as usize, end: spec_offset(end) as usize }
    } else {
        Range { start: spec_offset(end) as usize, end: spec_offset(start) as usize }
    }
}

/// Queues the selection of the units between `start` and `end`.
pub fn native_set_selection(pending: &mut VecDeque<ImeEvent>, start: i32, end: i32)
    ensures
        final(pending)@ == old(pending)@.push(ImeEvent::SetSelection(selected_range(start, end))),
{
    let start: usize = offset_from_java(start);
    let end: usize = offset_from_java(end);
    let range: Range<usize> = if start <= end {
        Range { start, end }
    } else {
        Range { start: end, end: start }
    };
    push_event(pending, ImeEvent::SetSelection(range));
}

/// The ranges that are queued run forwards, and a selection does not depend on the order
/// of its two ends.
pub proof fn queued_ranges_run_forwards(start: i32, other: i32)
    ensures
        replaced_range(start, other).start <= replaced_range(start, other).end,
        selected_range(start, other).start <= selected_range(start, other).end,
        selected_range(start, other) == selected_range(other, start),
{
}

/// The methods of the activity that keep the input method's editor.
#[derive(Clone, Copy, Debug, PartialEq, Eq, Structural)]
pub enum EditorMethod {
    /// Takes the text and shows the keyboard.
    ShowKeyboard,
    /// Takes the text.
    SyncText,
    /// Hides the keyboard.
    HideKeyboard,
}

impl EditorMethod {
    pub open spec fn name(self) -> Seq<char> {
        match self {
            EditorMethod::ShowKeyboard => "showGpuiKeyboard"@,
            EditorMethod::SyncText => "syncGpuiText"@,
            EditorMethod::HideKeyboard => "hideGpuiKeyboard"@,
        }
    }

    /// The method's name in Java.
    pub fn java_name(self) -> (name: &'static str)
        ensures
            name@ == self.name(),
    {
        match self {
            EditorMethod::ShowKeyboard => "showGpuiKeyboard",
            EditorMethod::SyncText => "syncGpuiText",
            EditorMethod::HideKeyboard => "hideGpuiKeyboard",
        }
    }
}

/// A call that hands the editor its text, with the selection in it.
#[derive(Clone, Copy, Debug, PartialEq, Eq, Structural)]
pub struct EditorCall {
    pub method: EditorMethod,
    pub start: i32,
    pub end: i32,
}

/// A position as Java holds it: no further than its largest integer.
pub open spec fn java_position(position: usize) -> i32 {
    if position > i32::MAX {
        i32::MAX
    } else {
        position as i32
    }
}

fn position_to_java(position: usize) -> (java: i32)
    ensures
        java == java_position(position),
{
    if position > i32::MAX as usize {
        i32::MAX
    } else {
        position as i32
    }
}

pub open spec fn spec_editor_call(selection: Range<usize>, show: bool) -> EditorCall {
    EditorCall {
        method: if show {
            EditorMethod::ShowKeyboard
        } else {
            EditorMethod::SyncText
        },
        start: java_position(selection.start),
        end: java_position(selection.end),
    }
}

/// The call that hands the editor its text, and shows the keyboard too where `show` says
/// so.
pub fn editor_call(selection: &Range<usize>, show: bool) -> (call: EditorCall)
    ensures
        call == spec_editor_call(*selection, show),
{
    EditorCall {
        method: if show {
            EditorMethod::ShowKeyboard
        } else {
            EditorMethod::SyncText
        },
        start: position_to_java(selection.start),
        end: position_to_java(selection.end),
    }
}

/// An edit replaces exactly `before` units, and they begin `start` units into the text. What
/// is below 0 counts as 0.
pub proof fn an_edit_replaces_what_was_there(start: i32, before: i32)
    ensures
        start >= 0 ==> replaced_range(start, before).start == start,
        start < 0 ==> replaced_range(start, before).start == 0,
        before >= 0 ==> replaced_range(start, before).end - replaced_range(start, before).start
            == before,
        before < 0 ==> replaced_range(start, before).end == replaced_range(start, before).start,
{
}

/// A selection runs from the smaller of its two ends to the larger, so that two equal ends
/// are a caret that selects nothing. An end below 0 counts as 0.
pub proof fn a_selection_lies_between_its_ends(start: i32, end: i32)
    ensures
        0 <= start <= end ==> selected_range(start, end).start == start && selected_range(
            start,
            end,
        ).end == end,
        0 <= end <= start ==> selected_range(start, end).start == end && selected_range(
            start,
            end,
        ).end == start,
        start < 0 && end >= 0 ==> selected_range(start, end).start == 0 && selected_range(
            start,
            end,
        ).end == end,
        end < 0 && start >= 0 ==> selected_range(start, end).start == 0 && selected_range(
            start,
            end,
        ).end == start,
        start < 0 && end < 0 ==> selected_range(start, end).start == 0 && selected_range(
            start,
            end,
        ).end == 0,
{
}

/// The editor is told both ends of the selection, each as it is unless Java cannot count as
/// far. It is told to show the keyboard where that is wanted, and else only the text.
pub proof fn the_editor_is_told_both_ends(selection: Range<usize>, show: bool)
    ensures
        ({
            let call = spec_editor_call(selection, show);
            &&& selection.start <= 0x7fff_ffff ==> call.start == selection.start
            &&& selection.start > 0x7fff_ffff ==> call.start == 0x7fff_ffff
            &&& selection.end <= 0x7fff_ffff ==> call.end == selection.end
            &&& selection.end > 0x7fff_ffff ==> call.end == 0x7fff_ffff
            &&& show ==> call.method == EditorMethod::ShowKeyboard
            &&& !show ==> call.method == EditorMethod::SyncText
        }),
{
}

/// The activity's methods have these names.
pub proof fn editor_methods_have_their_names()
    ensures
        EditorMethod::ShowKeyboard.name() == "showGpuiKeyboard"@,
        EditorMethod::SyncText.name() == "syncGpuiText"@,
        EditorMethod::HideKeyboard.name() == "hideGpuiKeyboard"@,
{
}

} // verus!
