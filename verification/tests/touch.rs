use gpui_android::geometry::{Point, Scalar};
use gpui_android::input::{
    InputStatus, Modifiers, MouseButton, MouseDownEvent, MouseMoveEvent, MouseUpEvent,
    PlatformInput, ScrollWheelEvent, TouchPhase,
};
use gpui_android::touch::{
    anchor, handle_motion_event, momentum, momentum_step_seconds, start_momentum, tap_points,
    tick_long_press, tick_scroll_momentum, ClickState, Effect, MomentumStep, MotionAction,
    MotionEvent, MotionOutcome, TouchGesture, MOMENTUM_DECAY_PER_MILLISECOND_BITS,
};
use gpui_android::velocity::{TouchSample, VelocityTracker};

const MILLI: u64 = 1_000_000;

fn scalar(value: f32) -> Scalar {
    Scalar { bits: value.to_bits() }
}

fn number(scalar: Scalar) -> f32 {
    f32::from_bits(scalar.bits)
}

fn point(x: f32, y: f32) -> Point {
    Point { x: scalar(x), y: scalar(y) }
}

fn distance(from: Point, to: Point) -> f32 {
    ((number(to.x) - number(from.x)).powi(2) + (number(to.y) - number(from.y)).powi(2)).sqrt()
}

/// Measures an event against the gesture and hands it over.
fn touch(
    gesture: &mut TouchGesture,
    clicks: &mut ClickState,
    action: MotionAction,
    position: Point,
    millis: u64,
) -> MotionOutcome {
    let from = anchor(gesture).unwrap_or(position);
    let tap_distance = match tap_points(gesture, clicks) {
        Some((last, this)) => distance(last, this),
        None => 0.0,
    };
    let motion = MotionEvent {
        action,
        sample: TouchSample { position, event_time_nanos: (millis * MILLI) as i64 },
        delta: point(number(position.x) - number(from.x), number(position.y) - number(from.y)),
        travel: scalar(distance(from, position)),
        tap_distance: scalar(tap_distance),
    };
    handle_motion_event(gesture, clicks, &motion, millis * MILLI)
}

fn scrolls(outcome: &MotionOutcome) -> Vec<ScrollWheelEvent> {
    outcome
        .effects
        .iter()
        .filter_map(|effect| match effect {
            Effect::Dispatch(PlatformInput::ScrollWheel(event)) => Some(*event),
            _ => None,
        })
        .collect()
}

fn scroll(position: Point, delta: Point, touch_phase: TouchPhase) -> ScrollWheelEvent {
    ScrollWheelEvent { position, delta, modifiers: Modifiers::none(), touch_phase }
}

fn click_count(outcome: &MotionOutcome) -> usize {
    match &outcome.effects[1] {
        Effect::Dispatch(PlatformInput::MouseDown(event)) => event.click_count,
        other => panic!("{other:?}"),
    }
}

fn momentum_velocity(gesture: &TouchGesture) -> Point {
    match gesture {
        TouchGesture::Momentum { velocity, .. } => *velocity,
        other => panic!("{other:?}"),
    }
}

/// One frame of momentum.
fn advance(gesture: &mut TouchGesture, now: u64) -> Option<ScrollWheelEvent> {
    let progress = momentum(gesture, now)?;
    let passed = std::time::Duration::from_nanos(progress.elapsed_nanos).as_secs_f32();
    let seconds = number(momentum_step_seconds(scalar(passed)));
    let (x, y) = (number(progress.velocity.x), number(progress.velocity.y));
    let decay = f32::from_bits(MOMENTUM_DECAY_PER_MILLISECOND_BITS).powf(seconds * 1_000.0);
    let step = MomentumStep {
        delta: point(x * seconds, y * seconds),
        velocity: point(x * decay, y * decay),
        speed: scalar((x * decay).hypot(y * decay)),
    };
    tick_scroll_momentum(gesture, &step, now)
}

#[test]
fn a_tap_is_a_click_where_the_finger_came_down() {
    let mut gesture = TouchGesture::default();
    let mut clicks = ClickState::default();
    let down = touch(&mut gesture, &mut clicks, MotionAction::Down, point(100.0, 50.0), 1000);
    assert_eq!(down.status, InputStatus::Handled);
    assert!(down.effects.is_empty());
    let moved = touch(&mut gesture, &mut clicks, MotionAction::Move, point(108.0, 50.0), 1010);
    assert!(moved.effects.is_empty());
    let up = touch(&mut gesture, &mut clicks, MotionAction::Up, point(104.0, 50.0), 1020);
    let at = point(100.0, 50.0);
    let modifiers = Modifiers::none();
    assert_eq!(up.effects.len(), 5);
    assert!(matches!(
        &up.effects[0],
        Effect::Dispatch(PlatformInput::MouseMove(event))
            if *event == MouseMoveEvent { position: at, pressed_button: None, modifiers }
    ));
    assert!(matches!(
        &up.effects[1],
        Effect::Dispatch(PlatformInput::MouseDown(event))
            if *event == MouseDownEvent {
                button: MouseButton::Left,
                position: at,
                modifiers,
                click_count: 1,
                first_mouse: false,
            }
    ));
    assert!(matches!(
        &up.effects[2],
        Effect::Dispatch(PlatformInput::MouseUp(event))
            if *event == MouseUpEvent {
                button: MouseButton::Left,
                position: at,
                modifiers,
                click_count: 1,
            }
    ));
    assert!(matches!(&up.effects[3], Effect::SummonSoftKeyboard));
    assert!(matches!(&up.effects[4], Effect::SynchronizeSoftKeyboard));
    assert!(up.fling.is_none());
    assert!(matches!(gesture, TouchGesture::Idle));
}

#[test]
fn a_drag_past_the_slop_scrolls() {
    let mut gesture = TouchGesture::default();
    let mut clicks = ClickState::default();
    touch(&mut gesture, &mut clicks, MotionAction::Down, point(0.0, 100.0), 0);
    let first = touch(&mut gesture, &mut clicks, MotionAction::Move, point(0.0, 91.0), 10);
    assert_eq!(
        scrolls(&first),
        vec![scroll(point(0.0, 100.0), point(0.0, -9.0), TouchPhase::Started)]
    );
    let second = touch(&mut gesture, &mut clicks, MotionAction::Move, point(0.0, 71.0), 20);
    assert_eq!(
        scrolls(&second),
        vec![scroll(point(0.0, 71.0), point(0.0, -20.0), TouchPhase::Moved)]
    );
    let last = touch(&mut gesture, &mut clicks, MotionAction::Up, point(0.0, 61.0), 30);
    assert_eq!(
        scrolls(&last),
        vec![
            scroll(point(0.0, 61.0), point(0.0, -10.0), TouchPhase::Moved),
            scroll(point(0.0, 61.0), point(0.0, 0.0), TouchPhase::Ended),
        ]
    );
    let span = last.fling.unwrap();
    assert_eq!(span.elapsed_nanos, 30_000_000);
    assert_eq!(span.first.position, point(0.0, 100.0));
    assert_eq!(clicks, ClickState::default());
}

#[test]
fn a_finger_at_rest_starts_no_momentum() {
    let mut gesture = TouchGesture::default();
    let mut clicks = ClickState::default();
    touch(&mut gesture, &mut clicks, MotionAction::Down, point(0.0, 0.0), 0);
    touch(&mut gesture, &mut clicks, MotionAction::Move, point(0.0, 30.0), 10);
    touch(&mut gesture, &mut clicks, MotionAction::Move, point(0.0, 30.0), 60);
    let up = touch(&mut gesture, &mut clicks, MotionAction::Up, point(0.0, 30.0), 111);
    assert_eq!(scrolls(&up), vec![scroll(point(0.0, 30.0), point(0.0, 0.0), TouchPhase::Ended)]);
    assert!(up.fling.is_none());

    touch(&mut gesture, &mut clicks, MotionAction::Down, point(0.0, 0.0), 1000);
    touch(&mut gesture, &mut clicks, MotionAction::Move, point(0.0, 30.0), 1010);
    let up = touch(&mut gesture, &mut clicks, MotionAction::Up, point(0.0, 30.0), 1110);
    assert!(up.fling.is_some());
}

#[test]
fn taps_nearby_count_up() {
    let mut gesture = TouchGesture::default();
    let mut clicks = ClickState::default();
    let mut tap = |x: f32, millis: u64| {
        touch(&mut gesture, &mut clicks, MotionAction::Down, point(x, 0.0), millis);
        click_count(&touch(&mut gesture, &mut clicks, MotionAction::Up, point(x, 0.0), millis))
    };
    assert_eq!(tap(100.0, 1000), 1);
    assert_eq!(tap(115.0, 1399), 2);
    assert_eq!(tap(115.0, 1700), 3);
    assert_eq!(tap(131.0, 1800), 1);
    assert_eq!(tap(131.0, 2200), 1);
    assert_eq!(tap(131.0, 2599), 2);
}

#[test]
fn the_first_tap_is_no_double_tap() {
    let mut clicks = ClickState::default();
    assert_eq!(clicks.register_click(point(0.0, 0.0), scalar(0.0), 0), 1);
    assert_eq!(clicks.register_click(point(0.0, 0.0), scalar(0.0), 399_999_999), 2);
    assert_eq!(clicks.last_time, Some(399_999_999));
    assert_eq!(clicks.register_click(point(1.0, 0.0), scalar(16.0), 400_000_000), 1);
    assert_eq!(clicks.last_position, point(1.0, 0.0));
}

#[test]
fn a_long_press_is_a_double_and_a_right_click() {
    let mut gesture = TouchGesture::default();
    let mut clicks = ClickState::default();
    touch(&mut gesture, &mut clicks, MotionAction::Down, point(7.0, 8.0), 1000);
    assert!(tick_long_press(&mut gesture, 1499 * MILLI).is_empty());
    let inputs = tick_long_press(&mut gesture, 1500 * MILLI);
    let seen: Vec<(bool, MouseButton, usize)> = inputs
        .iter()
        .map(|input| match input {
            PlatformInput::MouseDown(event) => {
                assert_eq!(event.position, point(7.0, 8.0));
                assert!(!event.first_mouse);
                (true, event.button, event.click_count)
            }
            PlatformInput::MouseUp(event) => {
                assert_eq!(event.position, point(7.0, 8.0));
                (false, event.button, event.click_count)
            }
            other => panic!("{other:?}"),
        })
        .collect();
    assert_eq!(
        seen,
        vec![
            (true, MouseButton::Left, 2),
            (false, MouseButton::Left, 2),
            (true, MouseButton::Right, 1),
            (false, MouseButton::Right, 1),
        ]
    );
    assert!(tick_long_press(&mut gesture, 9000 * MILLI).is_empty());
    let moved = touch(&mut gesture, &mut clicks, MotionAction::Move, point(99.0, 8.0), 1600);
    assert!(moved.effects.is_empty());
    let up = touch(&mut gesture, &mut clicks, MotionAction::Up, point(99.0, 8.0), 1700);
    assert!(up.effects.is_empty());
    assert_eq!(clicks, ClickState::default());
    assert!(matches!(gesture, TouchGesture::Idle));
}

#[test]
fn a_cancelled_scroll_ends() {
    let mut gesture = TouchGesture::default();
    let mut clicks = ClickState::default();
    touch(&mut gesture, &mut clicks, MotionAction::Down, point(0.0, 0.0), 0);
    let cancel = touch(&mut gesture, &mut clicks, MotionAction::Cancel, point(0.0, 0.0), 5);
    assert!(cancel.effects.is_empty());
    touch(&mut gesture, &mut clicks, MotionAction::Down, point(0.0, 0.0), 10);
    touch(&mut gesture, &mut clicks, MotionAction::Move, point(0.0, 20.0), 20);
    let cancel = touch(&mut gesture, &mut clicks, MotionAction::Cancel, point(0.0, 21.0), 30);
    assert_eq!(
        scrolls(&cancel),
        vec![scroll(point(0.0, 21.0), point(0.0, 0.0), TouchPhase::Ended)]
    );
    assert!(matches!(gesture, TouchGesture::Idle));
    start_momentum(&mut gesture, point(0.0, 100.0), point(1.0, 1.0), 0);
    let cancel = touch(&mut gesture, &mut clicks, MotionAction::Cancel, point(2.0, 2.0), 30);
    assert_eq!(
        scrolls(&cancel),
        vec![scroll(point(2.0, 2.0), point(0.0, 0.0), TouchPhase::Ended)]
    );
}

#[test]
fn other_motions_are_left_alone() {
    let mut gesture = TouchGesture::default();
    let mut clicks = ClickState::default();
    touch(&mut gesture, &mut clicks, MotionAction::Down, point(0.0, 0.0), 0);
    let other = touch(&mut gesture, &mut clicks, MotionAction::Other, point(50.0, 0.0), 10);
    assert_eq!(other.status, InputStatus::Unhandled);
    assert!(other.effects.is_empty());
    assert!(matches!(gesture, TouchGesture::Pending { .. }));
}

#[test]
fn momentum_decay_is_time_based() {
    let mut two_frames = TouchGesture::default();
    start_momentum(&mut two_frames, point(0.0, 2_000.0), point(0.0, 0.0), 0);
    advance(&mut two_frames, 16 * MILLI);
    advance(&mut two_frames, 32 * MILLI);
    let after_two_frames = number(momentum_velocity(&two_frames).y);
    let mut combined = TouchGesture::default();
    start_momentum(&mut combined, point(0.0, 2_000.0), point(0.0, 0.0), 0);
    advance(&mut combined, 32 * MILLI);
    let after_combined_frame = number(momentum_velocity(&combined).y);

    assert!((after_two_frames - after_combined_frame).abs() < 0.01);
    assert!(after_two_frames < 2_000.0);
}

#[test]
fn momentum_moves_and_then_ends() {
    let mut gesture = TouchGesture::default();
    assert_eq!(advance(&mut gesture, 0), None);
    start_momentum(&mut gesture, point(0.0, 100.0), point(3.0, 4.0), 0);
    let event = advance(&mut gesture, 10 * MILLI).unwrap();
    assert_eq!(event, scroll(point(3.0, 4.0), point(0.0, 100.0 * 0.01), TouchPhase::Moved));
    let mut now = 10 * MILLI;
    let mut last = event;
    while let Some(event) = advance(&mut gesture, now) {
        last = event;
        now += 100 * MILLI;
    }
    assert_eq!(last, scroll(point(3.0, 4.0), point(0.0, 0.0), TouchPhase::Ended));
    assert!(matches!(gesture, TouchGesture::Idle));
}

#[test]
fn momentum_takes_short_steps() {
    assert_eq!(momentum_step_seconds(scalar(0.016)), scalar(0.016));
    assert_eq!(momentum_step_seconds(scalar(0.05)), scalar(0.05));
    assert_eq!(momentum_step_seconds(scalar(2.0)), scalar(0.05));
    assert_eq!(f32::from_bits(MOMENTUM_DECAY_PER_MILLISECOND_BITS), 0.998);
}

#[test]
fn slow_momentum_stops_at_ten_pixels_a_second() {
    let mut gesture = TouchGesture::default();
    start_momentum(&mut gesture, point(0.0, 20.0), point(0.0, 0.0), 0);
    let step = |speed: f32| MomentumStep {
        delta: point(0.0, 1.0),
        velocity: point(0.0, speed),
        speed: scalar(speed),
    };
    let event = tick_scroll_momentum(&mut gesture, &step(10.0), 5).unwrap();
    assert_eq!(event.touch_phase, TouchPhase::Moved);
    let event = tick_scroll_momentum(&mut gesture, &step(9.999), 6).unwrap();
    assert_eq!(event.touch_phase, TouchPhase::Ended);
    assert_eq!(tick_scroll_momentum(&mut gesture, &step(9.0), 7), None);
}

#[test]
fn scrolls_measure_from_where_they_got_to() {
    let scrolling = TouchGesture::Scrolling {
        last: TouchSample { position: point(5.0, 6.0), event_time_nanos: 0 },
        velocity: VelocityTracker::default(),
        last_moved_at_nanos: 0,
    };
    assert_eq!(anchor(&scrolling), Some(point(5.0, 6.0)));
    assert_eq!(tap_points(&scrolling, &ClickState::default()), None);
    assert_eq!(anchor(&TouchGesture::LongPress), None);
}

#[test]
fn the_deltas_of_a_scroll_add_up() {
    let mut gesture = TouchGesture::default();
    let mut clicks = ClickState::default();
    let mut total = (0.0, 0.0);
    let path = [
        (MotionAction::Down, 10.0, 20.0),
        (MotionAction::Move, 13.0, 16.0),
        (MotionAction::Move, 30.0, 4.0),
        (MotionAction::Other, 500.0, 500.0),
        (MotionAction::Move, 28.0, 64.0),
        (MotionAction::Move, 28.0, 64.0),
        (MotionAction::Up, 25.0, 70.0),
    ];
    for (index, (action, x, y)) in path.into_iter().enumerate() {
        let outcome = touch(&mut gesture, &mut clicks, action, point(x, y), index as u64 * 10);
        assert!(tick_long_press(&mut gesture, index as u64 * 10 * MILLI).is_empty());
        for event in scrolls(&outcome) {
            total.0 += number(event.delta.x);
            total.1 += number(event.delta.y);
        }
    }
    assert_eq!(total, (15.0, 50.0));
}

#[test]
fn the_fastest_fling_is_over_after_seventy_long_steps() {
    let mut gesture = TouchGesture::default();
    start_momentum(&mut gesture, point(0.0, -8_000.0), point(0.0, 0.0), 0);
    let mut phases = Vec::new();
    let mut now = 0;
    let mut speed = 8_000.0;
    for _ in 0..70 {
        now += 50 * MILLI;
        if let Some(event) = advance(&mut gesture, now) {
            phases.push(event.touch_phase);
        }
        if let TouchGesture::Momentum { velocity, .. } = &gesture {
            let slower = number(velocity.y).abs();
            assert!(1_000.0 * slower <= 906.0 * speed);
            speed = slower;
        }
    }
    assert!(matches!(gesture, TouchGesture::Idle));
    assert_eq!(advance(&mut gesture, now), None);
    assert_eq!(phases.pop(), Some(TouchPhase::Ended));
    assert!(phases.iter().all(|phase| *phase == TouchPhase::Moved));
}

#[test]
fn only_quick_taps_nearby_count_on() {
    let mut clicks = ClickState::default();
    assert!(!clicks.is_continued(scalar(0.0), 0));
    clicks.register_click(point(0.0, 0.0), scalar(0.0), 5);
    assert!(clicks.is_continued(scalar(15.9), 5 + 399 * MILLI));
    assert!(!clicks.is_continued(scalar(16.0), 5));
    assert!(!clicks.is_continued(scalar(0.0), 5 + 400 * MILLI));
}

#[test]
fn rounded_deltas_add_up_within_their_errors() {
    let mut gesture = TouchGesture::default();
    let mut clicks = ClickState::default();
    let mut total: f64 = 0.0;
    let mut events = 0;
    let path = [0.1f32, 33.3, 77.7, 123.45, 99.99, 0.7];
    for (index, y) in path.into_iter().enumerate() {
        let action = match index {
            0 => MotionAction::Down,
            5 => MotionAction::Up,
            _ => MotionAction::Move,
        };
        let outcome = touch(&mut gesture, &mut clicks, action, point(0.0, y), index as u64 * 10);
        for event in scrolls(&outcome) {
            total += f64::from(number(event.delta.y));
            events += 1;
        }
    }
    let whole = f64::from(0.7f32) - f64::from(0.1f32);
    let error = f64::from(128.0 * f32::EPSILON);
    assert_eq!(events, 6);
    assert!((total - whole).abs() <= f64::from(events) * error);
}
