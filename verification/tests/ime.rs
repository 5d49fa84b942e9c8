use gpui_android::ime::{
    clear_events, editor_call, native_replace_text, native_set_selection, push_event,
    restore_events, take_events, EditorCall, EditorMethod, ImeEvent,
};
use std::collections::VecDeque;

fn selections(events: &VecDeque<ImeEvent>) -> Vec<usize> {
    events
        .iter()
        .map(|event| match event {
            ImeEvent::SetSelection(range) => range.start,
            other => panic!("{other:?}"),
        })
        .collect()
}

fn select(pending: &mut VecDeque<ImeEvent>, at: usize) {
    push_event(pending, ImeEvent::SetSelection(at..at));
}

#[test]
fn taken_events_leave_the_queue() {
    let mut pending = VecDeque::new();
    select(&mut pending, 1);
    select(&mut pending, 2);
    assert_eq!(selections(&take_events(&mut pending)), vec![1, 2]);
    assert!(pending.is_empty());
    assert!(take_events(&mut pending).is_empty());
}

#[test]
fn restored_events_come_before_later_ones() {
    let mut pending = VecDeque::new();
    select(&mut pending, 1);
    select(&mut pending, 2);
    let taken = take_events(&mut pending);
    select(&mut pending, 3);
    restore_events(&mut pending, taken);
    assert_eq!(selections(&pending), vec![1, 2, 3]);
}

#[test]
fn cleared_events_are_gone() {
    let mut pending = VecDeque::new();
    select(&mut pending, 1);
    clear_events(&mut pending);
    assert!(pending.is_empty());
}

#[test]
fn replacements_name_their_range() {
    let mut pending = VecDeque::new();
    native_replace_text(&mut pending, 4, 3, String::from("new"));
    native_replace_text(&mut pending, -4, -3, String::new());
    native_replace_text(&mut pending, i32::MAX, i32::MAX, String::new());
    let ranges: Vec<(std::ops::Range<usize>, String)> = pending
        .into_iter()
        .map(|event| match event {
            ImeEvent::Replace { range, text } => (range, text),
            other => panic!("{other:?}"),
        })
        .collect();
    assert_eq!(ranges[0], (4..7, String::from("new")));
    assert_eq!(ranges[1], (0..0, String::new()));
    assert_eq!(ranges[2].0, 2_147_483_647..4_294_967_294);
}

#[test]
fn selections_run_forwards() {
    let mut pending = VecDeque::new();
    native_set_selection(&mut pending, 9, 4);
    native_set_selection(&mut pending, 4, 9);
    native_set_selection(&mut pending, 5, -1);
    let ranges: Vec<std::ops::Range<usize>> = pending
        .into_iter()
        .map(|event| match event {
            ImeEvent::SetSelection(range) => range,
            other => panic!("{other:?}"),
        })
        .collect();
    assert_eq!(ranges, vec![4..9, 4..9, 0..5]);
}

#[test]
fn editor_calls_fit_java() {
    assert_eq!(
        editor_call(&(3..5), true),
        EditorCall { method: EditorMethod::ShowKeyboard, start: 3, end: 5 }
    );
    assert_eq!(
        editor_call(&(3..usize::MAX), false),
        EditorCall { method: EditorMethod::SyncText, start: 3, end: i32::MAX }
    );
    assert_eq!(EditorMethod::ShowKeyboard.java_name(), "showGpuiKeyboard");
    assert_eq!(EditorMethod::SyncText.java_name(), "syncGpuiText");
    assert_eq!(EditorMethod::HideKeyboard.java_name(), "hideGpuiKeyboard");
}
