//! The single-finger gesture recognizer. There are no touch events to hand on, so a
//! tap becomes a mouse click and a drag past the slop becomes a stream of scroll
//! events in which the content follows the finger.

use crate::geometry::{whole_number_value, zero, Point, Scalar};
use crate::input::{
    InputStatus, Modifiers, MouseButton, MouseDownEvent, MouseMoveEvent, MouseUpEvent,
    PlatformInput, ScrollWheelEvent, TouchPhase,
};
use crate::velocity::{
    a_later_sample_joins_the_recent_ones, in_order, samples_lie_within_the_window,
    samples_stay_in_order, saturating_sub, span_of, spec_saturating_sub, with_sample, TouchSample,
    VelocitySpan, VelocityTracker,
};
use vstd::arithmetic::power2::{lemma2_to64, lemma_pow2_adds, pow2};
use vstd::prelude::*;

verus! {

/// 8 logical pixels: how far a touch may travel before it stops being a tap.
pub const TOUCH_SLOP_BITS: u32 = 0x4100_0000;

/// Two taps count as one double tap if less time than this passes between them.
pub const DOUBLE_TAP_MILLIS: u64 = 400;

/// 16 logical pixels: two taps of a double tap are closer than this.
pub const DOUBLE_TAP_DISTANCE_BITS: u32 = 0x4180_0000;

/// A finger that rests for longer than this before it lifts starts no momentum.
pub const HOLD_SUPPRESSES_MOMENTUM_NANOS: i64 = 100_000_000;

/// How long a finger must stay down without travelling past the slop before the press
/// counts as a long press rather than a tap. Android's own timeout is the same.
pub const LONG_PRESS_NANOS: u64 = 500_000_000;

/// 10 logical pixels per second: momentum below it ends.
pub const MOMENTUM_MINIMUM_SPEED_BITS: u32 = 0x4120_0000;

/// 0.05 seconds: the longest step that momentum takes at once.
pub const MOMENTUM_LONGEST_STEP_BITS: u32 = 0x3d4c_cccd;

/// 0.998: what a velocity is multiplied by for each millisecond of momentum.
pub const MOMENTUM_DECAY_PER_MILLISECOND_BITS: u32 = 0x3f7f_7cee;

const NANOS_PER_MILLI: u64 = 1_000_000;

/// The time from one reading of a monotonic clock to another, in nanoseconds; none
/// where the second is not the later one.
pub open spec fn elapsed_nanos(earlier: u64, later: u64) -> int {
    if later < earlier {
        0
    } else {
        later - earlier
    }
}

pub open spec fn touch_slop() -> Scalar {
    Scalar { bits: TOUCH_SLOP_BITS }
}

pub open spec fn double_tap_distance() -> Scalar {
    Scalar { bits: DOUBLE_TAP_DISTANCE_BITS }
}

pub open spec fn momentum_minimum_speed() -> Scalar {
    Scalar { bits: MOMENTUM_MINIMUM_SPEED_BITS }
}

/// The last tap, and how many taps it is the last of.
#[derive(Clone, Copy, Debug, PartialEq, Eq)]
pub struct ClickState {
    pub last_position: Point,
    pub last_time: Option<u64>,
    pub current_count: usize,
}

impl Default for ClickState {
    fn default() -> (state: ClickState)
        ensures
            state.last_position == Point::spec_origin(),
            state.last_time is None,
            state.current_count == 0,
    {
        ClickState { last_position: Point::origin(), last_time: None, current_count: 0 }
    }
}

impl ClickState {
    /// Whether a tap at `now`, `distance` away from the last one, continues it.
    pub open spec fn continues(self, distance: Scalar, now: u64) -> bool {
        &&& self.last_time is Some
        &&& elapsed_nanos(self.last_time->0, now) / 1_000_000 < DOUBLE_TAP_MILLIS
        &&& distance.below(double_tap_distance())
    }

    /// How many taps a tap at `now` is the last of.
    pub open spec fn count_at(self, distance: Scalar, now: u64) -> int {
        if self.continues(distance, now) {
            self.current_count + 1
        } else {
            1
        }
    }

    /// Whether a tap at `now`, `distance` away from the last one, counts on from it.
    pub fn is_continued(&self, distance: Scalar, now: u64) -> (continued: bool)
        ensures
            continued == self.continues(distance, now),
    {
        let within_double_tap = match self.last_time {
            Some(last) => now.saturating_sub(last) / NANOS_PER_MILLI < DOUBLE_TAP_MILLIS,
            None => false,
        };
        within_double_tap && distance.lt(Scalar { bits: DOUBLE_TAP_DISTANCE_BITS })
    }

    /// Records a tap and says how many quick taps at one place it is the last of.
    /// `distance` is that from the last tap.
    pub fn register_click(&mut self, position: Point, distance: Scalar, now: u64) -> (count: usize)
        requires
            old(self).count_at(distance, now) <= usize::MAX,
        ensures
            count == old(self).count_at(distance, now),
            *final(self) == (ClickState {
                last_position: position,
                last_time: Some(now),
                current_count: count,
            }),
    {
        if self.is_continued(distance, now) {
            self.current_count = self.current_count + 1;
        } else {
            self.current_count = 1;
        }
        self.last_position = position;
        self.last_time = Some(now);
        self.current_count
    }
}

/// What the finger is doing. Times of the form `.._at` and `last_tick` are readings of
/// a monotonic clock in nanoseconds; those of samples are the events' own.
#[derive(Debug)]
pub enum TouchGesture {
    /// No finger is down and nothing moves.
    Idle,
    /// The finger is down and has not travelled past the slop.
    Pending { start: TouchSample, velocity: VelocityTracker, started_at: u64 },
    /// The finger stayed down long enough to become a long press. The click that it
    /// stands for is sent already, so the rest of the gesture is swallowed.
    LongPress,
    Scrolling { last: TouchSample, velocity: VelocityTracker, last_moved_at_nanos: i64 },
    /// The finger has left and the content moves on.
    Momentum { velocity: Point, position: Point, last_tick: u64 },
}

/// A gesture with its samples as a sequence.
pub enum GestureState {
    Idle,
    Pending { start: TouchSample, samples: Seq<TouchSample>, started_at: u64 },
    LongPress,
    Scrolling { last: TouchSample, samples: Seq<TouchSample>, last_moved_at_nanos: i64 },
    Momentum { velocity: Point, position: Point, last_tick: u64 },
}

impl View for TouchGesture {
    type V = GestureState;

    open spec fn view(&self) -> GestureState {
        match *self {
            TouchGesture::Idle => GestureState::Idle,
            TouchGesture::Pending { start, velocity, started_at } => GestureState::Pending {
                start,
                samples: velocity@,
                started_at,
            },
            TouchGesture::LongPress => GestureState::LongPress,
            TouchGesture::Scrolling { last, velocity, last_moved_at_nanos } => {
                GestureState::Scrolling { last, samples: velocity@, last_moved_at_nanos }
            },
            TouchGesture::Momentum { velocity, position, last_tick } => GestureState::Momentum {
                velocity,
                position,
                last_tick,
            },
        }
    }
}

impl GestureState {
    /// The samples that a gesture keeps are in the order of their times.
    pub open spec fn well_formed(self) -> bool {
        match self {
            GestureState::Pending { start, samples, started_at } => in_order(samples),
            GestureState::Scrolling { last, samples, last_moved_at_nanos } => in_order(samples),
            _ => true,
        }
    }
}

impl Default for TouchGesture {
    fn default() -> (gesture: TouchGesture)
        ensures
            gesture@ == GestureState::Idle,
    {
        TouchGesture::Idle
    }
}

#[derive(Clone, Copy, Debug, PartialEq, Eq, Structural)]
pub enum MotionAction {
    Down,
    Move,
    Up,
    Cancel,
    Other,
}

/// A touch event, with what was measured for it: `delta` and `travel` are the vector
/// and the distance from the gesture's anchor to the sample, and `tap_distance` is the
/// distance between the two points of [`tap_points`].
#[derive(Clone, Copy, Debug, PartialEq, Eq)]
pub struct MotionEvent {
    pub action: MotionAction,
    pub sample: TouchSample,
    pub delta: Point,
    pub travel: Scalar,
    pub tap_distance: Scalar,
}

/// Something to be done for an event, after those before it in the list.
#[derive(Debug)]
pub enum Effect {
    /// Hand the event to the window.
    Dispatch(PlatformInput),
    /// Show the soft keyboard if a text field has the focus by now.
    SummonSoftKeyboard,
    /// Tell the input method where the caret is now.
    SynchronizeSoftKeyboard,
}

/// What an event asks for.
#[derive(Debug)]
pub struct MotionOutcome {
    pub status: InputStatus,
    pub effects: Vec<Effect>,
    /// The movement that may go on as momentum, once the effects are done.
    pub fling: Option<VelocitySpan>,
}

/// The point that travel is measured from: where the finger came down, or where the
/// scroll got to.
pub open spec fn spec_anchor(state: GestureState) -> Option<Point> {
    match state {
        GestureState::Pending { start, samples, started_at } => Some(start.position),
        GestureState::Scrolling { last, samples, last_moved_at_nanos } => Some(last.position),
        _ => None,
    }
}

pub fn anchor(gesture: &TouchGesture) -> (point: Option<Point>)
    ensures
        point == spec_anchor(gesture@),
{
    match gesture {
        TouchGesture::Pending { start, .. } => Some(start.position),
        TouchGesture::Scrolling { last, .. } => Some(last.position),
        _ => None,
    }
}

/// The last tap and the one that the gesture would end in.
pub fn tap_points(gesture: &TouchGesture, clicks: &ClickState) -> (points: Option<(Point, Point)>)
    ensures
        points == match gesture@ {
            GestureState::Pending { start, samples, started_at } => Some(
                (clicks.last_position, start.position),
            ),
            _ => None::<(Point, Point)>,
        },
{
    match gesture {
        TouchGesture::Pending { start, .. } => Some((clicks.last_position, start.position)),
        _ => None,
    }
}

/// A scroll event without modifiers.
pub open spec fn spec_scroll(position: Point, delta: Point, touch_phase: TouchPhase) -> ScrollWheelEvent {
    ScrollWheelEvent { position, delta, modifiers: Modifiers::spec_none(), touch_phase }
}

fn scroll(position: Point, delta: Point, touch_phase: TouchPhase) -> (event: ScrollWheelEvent)
    ensures
        event == spec_scroll(position, delta, touch_phase),
{
    ScrollWheelEvent { position, delta, modifiers: Modifiers::none(), touch_phase }
}

/// The press of a button, without modifiers.
pub open spec fn spec_press(button: MouseButton, position: Point, click_count: usize) -> PlatformInput {
    PlatformInput::MouseDown(
        MouseDownEvent {
            button,
            position,
            modifiers: Modifiers::spec_none(),
            click_count,
            first_mouse: false,
        },
    )
}

fn press(button: MouseButton, position: Point, click_count: usize) -> (input: PlatformInput)
    ensures
        input == spec_press(button, position, click_count),
{
    PlatformInput::MouseDown(
        MouseDownEvent {
            button,
            position,
            modifiers: Modifiers::none(),
            click_count,
            first_mouse: false,
        },
    )
}

/// The release of a button, without modifiers.
pub open spec fn spec_release(button: MouseButton, position: Point, click_count: usize) -> PlatformInput {
    PlatformInput::MouseUp(
        MouseUpEvent { button, position, modifiers: Modifiers::spec_none(), click_count },
    )
}

fn release(button: MouseButton, position: Point, click_count: usize) -> (input: PlatformInput)
    ensures
        input == spec_release(button, position, click_count),
{
    PlatformInput::MouseUp(
        MouseUpEvent { button, position, modifiers: Modifiers::none(), click_count },
    )
}

/// A pointer move with no button held.
pub open spec fn spec_hover(position: Point) -> PlatformInput {
    PlatformInput::MouseMove(
        MouseMoveEvent { position, pressed_button: None, modifiers: Modifiers::spec_none() },
    )
}

/// What a gesture becomes with an event.
pub open spec fn gesture_after(state: GestureState, motion: MotionEvent, now: u64) -> GestureState {
    let sample = motion.sample;
    match motion.action {
        MotionAction::Down => GestureState::Pending {
            start: sample,
            samples: seq![sample],
            started_at: now,
        },
        MotionAction::Move => match state {
            GestureState::Pending { start, samples, started_at } => {
                if touch_slop().below(motion.travel) {
                    GestureState::Scrolling {
                        last: sample,
                        samples: with_sample(samples, sample),
                        last_moved_at_nanos: sample.event_time_nanos,
                    }
                } else {
                    GestureState::Pending {
                        start,
                        samples: with_sample(samples, sample),
                        started_at,
                    }
                }
            },
            GestureState::Scrolling { last, samples, last_moved_at_nanos } => {
                GestureState::Scrolling {
                    last: sample,
                    samples: with_sample(samples, sample),
                    last_moved_at_nanos: last_moved(last_moved_at_nanos, motion),
                }
            },
            _ => state,
        },
        MotionAction::Up => GestureState::Idle,
        MotionAction::Cancel => GestureState::Idle,
        MotionAction::Other => state,
    }
}

/// When a scroll last moved, an event included.
pub open spec fn last_moved(last_moved_at_nanos: i64, motion: MotionEvent) -> i64 {
    if motion.delta.spec_is_nonzero() {
        motion.sample.event_time_nanos
    } else {
        last_moved_at_nanos
    }
}

/// Whether an event ends a press that never became anything else: a tap.
pub open spec fn is_tap(state: GestureState, motion: MotionEvent) -> bool {
    motion.action == MotionAction::Up && state is Pending
}

/// What there is to be done for an event, where a tap is the last of `click_count`.
pub open spec fn effects_of(
    state: GestureState,
    motion: MotionEvent,
    click_count: usize,
) -> Seq<Effect> {
    let position = motion.sample.position;
    let end = Effect::Dispatch(
        PlatformInput::ScrollWheel(
            spec_scroll(position, Point::spec_origin(), TouchPhase::Ended),
        ),
    );
    let moved = Effect::Dispatch(
        PlatformInput::ScrollWheel(spec_scroll(position, motion.delta, TouchPhase::Moved)),
    );
    match (motion.action, state) {
        (MotionAction::Move, GestureState::Pending { start, samples, started_at }) => {
            if touch_slop().below(motion.travel) {
                seq![
                    Effect::Dispatch(
                        PlatformInput::ScrollWheel(
                            spec_scroll(start.position, motion.delta, TouchPhase::Started),
                        ),
                    ),
                ]
            } else {
                seq![]
            }
        },
        (MotionAction::Move, GestureState::Scrolling { last, samples, last_moved_at_nanos }) => {
            seq![moved]
        },
        (MotionAction::Up, GestureState::Pending { start, samples, started_at }) => seq![
            Effect::Dispatch(spec_hover(start.position)),
            Effect::Dispatch(spec_press(MouseButton::Left, start.position, click_count)),
            Effect::Dispatch(spec_release(MouseButton::Left, start.position, click_count)),
            Effect::SummonSoftKeyboard,
            Effect::SynchronizeSoftKeyboard,
        ],
        (MotionAction::Up, GestureState::Scrolling { last, samples, last_moved_at_nanos }) => {
            if motion.delta.spec_is_nonzero() {
                seq![moved, end]
            } else {
                seq![end]
            }
        },
        (MotionAction::Cancel, GestureState::Scrolling { last, samples, last_moved_at_nanos }) => {
            seq![end]
        },
        (MotionAction::Cancel, GestureState::Momentum { velocity, position: at, last_tick }) => {
            seq![end]
        },
        _ => seq![],
    }
}

/// The movement that may go on as momentum: that of a scroll whose finger lifts while
/// it moves, or soon after.
pub open spec fn fling_of(state: GestureState, motion: MotionEvent) -> Option<VelocitySpan> {
    match (motion.action, state) {
        (MotionAction::Up, GestureState::Scrolling { last, samples, last_moved_at_nanos }) => {
            if spec_saturating_sub(
                motion.sample.event_time_nanos as int,
                last_moved(last_moved_at_nanos, motion) as int,
            ) <= HOLD_SUPPRESSES_MOMENTUM_NANOS {
                span_of(with_sample(samples, motion.sample))
            } else {
                None
            }
        },
        _ => None,
    }
}

/// Takes the gesture one touch event further, and says what is to be done for it.
pub fn handle_motion_event(
    gesture: &mut TouchGesture,
    clicks: &mut ClickState,
    motion: &MotionEvent,
    now: u64,
) -> (outcome: MotionOutcome)
    requires
        is_tap(old(gesture)@, *motion) ==> old(clicks).count_at(motion.tap_distance, now)
            <= usize::MAX,
    ensures
        final(gesture)@ == gesture_after(old(gesture)@, *motion, now),
        old(gesture)@.well_formed() ==> final(gesture)@.well_formed(),
        *final(clicks) == if is_tap(old(gesture)@, *motion) {
            ClickState {
                last_position: old(gesture)@->start.position,
                last_time: Some(now),
                current_count: old(clicks).count_at(motion.tap_distance, now) as usize,
            }
        } else {
            *old(clicks)
        },
        outcome.effects@ == effects_of(old(gesture)@, *motion, final(clicks).current_count),
        outcome.fling == fling_of(old(gesture)@, *motion),
        outcome.status == if motion.action == MotionAction::Other {
            InputStatus::Unhandled
        } else {
            InputStatus::Handled
        },
{
    let sample = motion.sample;
    let mut current = TouchGesture::Idle;
    std::mem::swap(&mut current, gesture);
    let mut effects: Vec<Effect> = Vec::new();
    let mut fling: Option<VelocitySpan> = None;
    let mut status = InputStatus::Handled;

    match motion.action {
        MotionAction::Down => {
            let mut velocity = VelocityTracker::default();
            velocity.push(sample);
            assert(velocity@ =~= seq![sample]);
            *gesture = TouchGesture::Pending { start: sample, velocity, started_at: now };
        },
        MotionAction::Move => match current {
            TouchGesture::Pending { start, velocity, started_at } => {
                let mut velocity = velocity;
                velocity.push(sample);
                if (Scalar { bits: TOUCH_SLOP_BITS }).lt(motion.travel) {
                    *gesture =
                    TouchGesture::Scrolling {
                        last: sample,
                        velocity,
                        last_moved_at_nanos: sample.event_time_nanos,
                    };
                    effects.push(
                        Effect::Dispatch(
                            PlatformInput::ScrollWheel(
                                scroll(start.position, motion.delta, TouchPhase::Started),
                            ),
                        ),
                    );
                } else {
                    *gesture = TouchGesture::Pending { start, velocity, started_at };
                }
            },
            TouchGesture::Scrolling { last, velocity, last_moved_at_nanos } => {
                let mut velocity = velocity;
                velocity.push(sample);
                let last_moved_at_nanos: i64 = if motion.delta.is_nonzero() {
                    sample.event_time_nanos
                } else {
                    last_moved_at_nanos
                };
                *gesture = TouchGesture::Scrolling { last: sample, velocity, last_moved_at_nanos };
                effects.push(
                    Effect::Dispatch(
                        PlatformInput::ScrollWheel(
                            scroll(sample.position, motion.delta, TouchPhase::Moved),
                        ),
                    ),
                );
            },
            other => {
                *gesture = other;
            },
        },
        MotionAction::Up => match current {
            TouchGesture::Pending { start, velocity, started_at } => {
                let click_count: usize = clicks.register_click(
                    start.position,
                    motion.tap_distance,
                    now,
                );
                effects.push(
                    Effect::Dispatch(
                        PlatformInput::MouseMove(
                            MouseMoveEvent {
                                position: start.position,
                                pressed_button: None,
                                modifiers: Modifiers::none(),
                            },
                        ),
                    ),
                );
                effects.push(
                    Effect::Dispatch(press(MouseButton::Left, start.position, click_count)),
                );
                effects.push(
                    Effect::Dispatch(release(MouseButton::Left, start.position, click_count)),
                );
                // A tap summons the keyboard when a text field has the focus once the
                // click has landed. Dismissing it then lasts until the next tap.
                effects.push(Effect::SummonSoftKeyboard);
                // The tap may have moved the caret, and the input method places its
                // edits by the selection that it was last told.
                effects.push(Effect::SynchronizeSoftKeyboard);
            },
            TouchGesture::Scrolling { last, velocity, last_moved_at_nanos } => {
                let mut velocity = velocity;
                let moving = motion.delta.is_nonzero();
                let last_moved_at_nanos: i64 = if moving {
                    sample.event_time_nanos
                } else {
                    last_moved_at_nanos
                };
                if moving {
                    effects.push(
                        Effect::Dispatch(
                            PlatformInput::ScrollWheel(
                                scroll(sample.position, motion.delta, TouchPhase::Moved),
                            ),
                        ),
                    );
                }
                velocity.push(sample);
                effects.push(
                    Effect::Dispatch(
                        PlatformInput::ScrollWheel(
                            scroll(sample.position, Point::origin(), TouchPhase::Ended),
                        ),
                    ),
                );
                if saturating_sub(sample.event_time_nanos, last_moved_at_nanos)
                    <= HOLD_SUPPRESSES_MOMENTUM_NANOS {
                    fling = velocity.velocity();
                }
            },
            // A long press is no tap: it has done its work.
            _ => {},
        },
        MotionAction::Cancel => {
            let scrolling = match current {
                TouchGesture::Scrolling { .. } => true,
                TouchGesture::Momentum { .. } => true,
                _ => false,
            };
            if scrolling {
                effects.push(
                    Effect::Dispatch(
                        PlatformInput::ScrollWheel(
                            scroll(sample.position, Point::origin(), TouchPhase::Ended),
                        ),
                    ),
                );
            }
        },
        MotionAction::Other => {
            *gesture = current;
            status = InputStatus::Unhandled;
        },
    }
    assert(effects@ =~= effects_of(old(gesture)@, *motion, clicks.current_count));
    MotionOutcome { status, effects, fling }
}

/// Whether a press has lasted long enough to be a long press.
pub open spec fn is_long_press(state: GestureState, now: u64) -> bool {
    state is Pending && elapsed_nanos(state->started_at, now) >= LONG_PRESS_NANOS
}

/// The clicks that a long press stands for. The double click selects the word under
/// the finger, and the right click opens the menu for it.
pub open spec fn long_press_inputs(position: Point) -> Seq<PlatformInput> {
    seq![
        spec_press(MouseButton::Left, position, 2),
        spec_release(MouseButton::Left, position, 2),
        spec_press(MouseButton::Right, position, 1),
        spec_release(MouseButton::Right, position, 1),
    ]
}

/// Fires the long press once the finger has been down long enough, and hands out the
/// clicks that it stands for: nothing in the touch stream ever reports one, so it is
/// found by the passing of time. They are no taps and count towards no double tap.
pub fn tick_long_press(gesture: &mut TouchGesture, now: u64) -> (inputs: Vec<PlatformInput>)
    ensures
        is_long_press(old(gesture)@, now) ==> {
            &&& final(gesture)@ == GestureState::LongPress
            &&& inputs@ == long_press_inputs(old(gesture)@->start.position)
        },
        !is_long_press(old(gesture)@, now) ==> {
            &&& *final(gesture) == *old(gesture)
            &&& inputs@ == Seq::<PlatformInput>::empty()
        },
{
    let mut inputs: Vec<PlatformInput> = Vec::new();
    let fired: Option<Point> = match gesture {
        TouchGesture::Pending { start, started_at, .. } => {
            if now.saturating_sub(*started_at) < LONG_PRESS_NANOS {
                None
            } else {
                Some(start.position)
            }
        },
        _ => None,
    };
    if let Some(position) = fired {
        inputs.push(press(MouseButton::Left, position, 2));
        inputs.push(release(MouseButton::Left, position, 2));
        inputs.push(press(MouseButton::Right, position, 1));
        inputs.push(release(MouseButton::Right, position, 1));
        *gesture = TouchGesture::LongPress;
        assert(inputs@ =~= long_press_inputs(position));
    }
    inputs
}

/// Lets the content move on with the given velocity.
pub fn start_momentum(gesture: &mut TouchGesture, velocity: Point, position: Point, now: u64)
    ensures
        final(gesture)@ == (GestureState::Momentum { velocity, position, last_tick: now }),
{
    *gesture = TouchGesture::Momentum { velocity, position, last_tick: now };
}

/// The velocity of the momentum and the time since it last took a step.
#[derive(Clone, Copy, Debug, PartialEq, Eq)]
pub struct MomentumProgress {
    pub velocity: Point,
    pub elapsed_nanos: u64,
}

/// How momentum stands, where there is any.
pub fn momentum(gesture: &TouchGesture, now: u64) -> (progress: Option<MomentumProgress>)
    ensures
        progress == match gesture@ {
            GestureState::Momentum { velocity, position, last_tick } => Some(
                MomentumProgress {
                    velocity,
                    elapsed_nanos: elapsed_nanos(last_tick, now) as u64,
                },
            ),
            _ => None::<MomentumProgress>,
        },
{
    match gesture {
        TouchGesture::Momentum { velocity, last_tick, .. } => Some(
            MomentumProgress {
                velocity: *velocity,
                elapsed_nanos: now.saturating_sub(*last_tick),
            },
        ),
        _ => None,
    }
}

/// How much of the time that has passed one step of momentum covers.
pub fn momentum_step_seconds(seconds: Scalar) -> (step: Scalar)
    ensures
        step == seconds.capped_at(Scalar { bits: MOMENTUM_LONGEST_STEP_BITS }),
{
    seconds.cap(Scalar { bits: MOMENTUM_LONGEST_STEP_BITS })
}

/// One step of momentum: how far the content goes in it, and the velocity and its
/// length after it.
#[derive(Clone, Copy, Debug, PartialEq, Eq)]
pub struct MomentumStep {
    pub delta: Point,
    pub velocity: Point,
    pub speed: Scalar,
}

/// What a gesture becomes with a step of momentum.
pub open spec fn gesture_after_step(
    state: GestureState,
    step: MomentumStep,
    now: u64,
) -> GestureState {
    match state {
        GestureState::Momentum { velocity, position, last_tick } => {
            if step.speed.below(momentum_minimum_speed()) {
                GestureState::Idle
            } else {
                GestureState::Momentum { velocity: step.velocity, position, last_tick: now }
            }
        },
        _ => state,
    }
}

/// The scroll event of a step of momentum.
pub open spec fn step_event(state: GestureState, step: MomentumStep) -> Option<ScrollWheelEvent> {
    match state {
        GestureState::Momentum { velocity, position, last_tick } => {
            if step.speed.below(momentum_minimum_speed()) {
                Some(spec_scroll(position, Point::spec_origin(), TouchPhase::Ended))
            } else {
                Some(spec_scroll(position, step.delta, TouchPhase::Moved))
            }
        },
        _ => None,
    }
}

/// Takes momentum one step further, or ends it where it has become too slow, and hands
/// out the scroll event for it.
pub fn tick_scroll_momentum(
    gesture: &mut TouchGesture,
    step: &MomentumStep,
    now: u64,
) -> (event: Option<ScrollWheelEvent>)
    ensures
        final(gesture)@ == gesture_after_step(old(gesture)@, *step, now),
        event == step_event(old(gesture)@, *step),
{
    let at: Option<Point> = match gesture {
        TouchGesture::Momentum { position, .. } => Some(*position),
        _ => None,
    };
    match at {
        Some(position) => {
            if step.speed.lt(Scalar { bits: MOMENTUM_MINIMUM_SPEED_BITS }) {
                *gesture = TouchGesture::Idle;
                Some(scroll(position, Point::origin(), TouchPhase::Ended))
            } else {
                *gesture =
                TouchGesture::Momentum { velocity: step.velocity, position, last_tick: now };
                Some(scroll(position, step.delta, TouchPhase::Moved))
            }
        },
        None => None,
    }
}

/// What moves a gesture on while a finger is down: an event of the touch, or a frame in
/// which the press may turn out to be a long one.
pub enum GestureInput {
    Touch { motion: MotionEvent, now: u64 },
    Tick { now: u64 },
}

impl GestureInput {
    /// Whether a finger comes down.
    pub open spec fn is_new_touch(self) -> bool {
        self matches GestureInput::Touch { motion, now } && motion.action == MotionAction::Down
    }
}

/// What a gesture becomes with one input.
pub open spec fn gesture_after_input(state: GestureState, input: GestureInput) -> GestureState {
    match input {
        GestureInput::Touch { motion, now } => gesture_after(state, motion, now),
        GestureInput::Tick { now } => {
            if is_long_press(state, now) {
                GestureState::LongPress
            } else {
                state
            }
        },
    }
}

/// What a gesture becomes with several inputs, the first of them first.
pub open spec fn gesture_after_all(state: GestureState, inputs: Seq<GestureInput>) -> GestureState
    decreases inputs.len(),
{
    if inputs.len() == 0 {
        state
    } else {
        gesture_after_input(gesture_after_all(state, inputs.drop_last()), inputs.last())
    }
}

/// The phases of the scroll events among the effects.
pub open spec fn scroll_phases(effects: Seq<Effect>) -> Seq<TouchPhase>
    decreases effects.len(),
{
    if effects.len() == 0 {
        seq![]
    } else {
        let before = scroll_phases(effects.drop_last());
        match effects.last() {
            Effect::Dispatch(PlatformInput::ScrollWheel(event)) => before.push(event.touch_phase),
            _ => before,
        }
    }
}

/// The phases of the scroll events that one input leads to.
pub open spec fn scroll_phases_of(state: GestureState, input: GestureInput) -> Seq<TouchPhase> {
    match input {
        GestureInput::Touch { motion, now } => scroll_phases(effects_of(state, motion, 0)),
        GestureInput::Tick { now } => seq![],
    }
}

/// The phases of the scroll events that several inputs lead to.
pub open spec fn scroll_phases_of_all(
    state: GestureState,
    inputs: Seq<GestureInput>,
) -> Seq<TouchPhase>
    decreases inputs.len(),
{
    if inputs.len() == 0 {
        seq![]
    } else {
        scroll_phases_of_all(state, inputs.drop_last()) + scroll_phases_of(
            gesture_after_all(state, inputs.drop_last()),
            inputs.last(),
        )
    }
}

/// How many clicks several inputs lead to: taps and long presses.
pub open spec fn clicks_of_all(state: GestureState, inputs: Seq<GestureInput>) -> nat
    decreases inputs.len(),
{
    if inputs.len() == 0 {
        0
    } else {
        let before = gesture_after_all(state, inputs.drop_last());
        let clicked = match inputs.last() {
            GestureInput::Touch { motion, now } => is_tap(before, motion),
            GestureInput::Tick { now } => is_long_press(before, now),
        };
        clicks_of_all(state, inputs.drop_last()) + if clicked {
            1nat
        } else {
            0nat
        }
    }
}

/// None of the inputs puts a finger down.
pub open spec fn no_new_touch(inputs: Seq<GestureInput>) -> bool {
    forall|i: int| 0 <= i < inputs.len() ==> !(#[trigger] inputs[i]).is_new_touch()
}

proof fn lemma_no_new_touch_before(inputs: Seq<GestureInput>)
    requires
        inputs.len() > 0,
        no_new_touch(inputs),
    ensures
        no_new_touch(inputs.drop_last()),
        !inputs.last().is_new_touch(),
{
    let before = inputs.drop_last();
    assert forall|i: int| 0 <= i < before.len() implies !(#[trigger] before[i]).is_new_touch() by {
        assert(before[i] == inputs[i]);
    }
    assert(!inputs[inputs.len() - 1].is_new_touch());
}

proof fn lemma_phases_of_one(effect: Effect)
    ensures
        scroll_phases(seq![effect]) == match effect {
            Effect::Dispatch(PlatformInput::ScrollWheel(event)) => seq![event.touch_phase],
            _ => Seq::<TouchPhase>::empty(),
        },
{
    assert(seq![effect].drop_last() =~= Seq::<Effect>::empty());
    reveal_with_fuel(scroll_phases, 2);
    assert(scroll_phases(seq![effect]) =~= match effect {
        Effect::Dispatch(PlatformInput::ScrollWheel(event)) => seq![event.touch_phase],
        _ => Seq::<TouchPhase>::empty(),
    });
}

proof fn lemma_phases_push(effects: Seq<Effect>, effect: Effect)
    ensures
        scroll_phases(effects.push(effect)) == match effect {
            Effect::Dispatch(PlatformInput::ScrollWheel(event)) => scroll_phases(effects).push(
                event.touch_phase,
            ),
            _ => scroll_phases(effects),
        },
{
    assert(effects.push(effect).drop_last() =~= effects);
}

proof fn lemma_phases_of_event(state: GestureState, motion: MotionEvent)
    ensures
        scroll_phases(effects_of(state, motion, 0)) == match (motion.action, state) {
            (MotionAction::Move, GestureState::Pending { start, samples, started_at }) => {
                if touch_slop().below(motion.travel) {
                    seq![TouchPhase::Started]
                } else {
                    seq![]
                }
            },
            (MotionAction::Move, GestureState::Scrolling { last, samples, last_moved_at_nanos }) => {
                seq![TouchPhase::Moved]
            },
            (MotionAction::Up, GestureState::Scrolling { last, samples, last_moved_at_nanos }) => {
                if motion.delta.spec_is_nonzero() {
                    seq![TouchPhase::Moved, TouchPhase::Ended]
                } else {
                    seq![TouchPhase::Ended]
                }
            },
            (
                MotionAction::Cancel,
                GestureState::Scrolling { last, samples, last_moved_at_nanos },
            ) => seq![TouchPhase::Ended],
            (MotionAction::Cancel, GestureState::Momentum { velocity, position, last_tick }) => {
                seq![TouchPhase::Ended]
            },
            _ => Seq::<TouchPhase>::empty(),
        },
{
    let effects = effects_of(state, motion, 0);
    if effects.len() == 0 {
    } else if effects.len() == 1 {
        lemma_phases_of_one(effects[0]);
        assert(effects =~= seq![effects[0]]);
    } else if effects.len() == 2 {
        lemma_phases_of_one(effects[0]);
        lemma_phases_push(seq![effects[0]], effects[1]);
        assert(effects =~= seq![effects[0]].push(effects[1]));
        assert(scroll_phases(effects) =~= seq![TouchPhase::Moved, TouchPhase::Ended]);
    } else {
        lemma_phases_of_one(effects[0]);
        let two = seq![effects[0]].push(effects[1]);
        let three = two.push(effects[2]);
        let four = three.push(effects[3]);
        lemma_phases_push(seq![effects[0]], effects[1]);
        lemma_phases_push(two, effects[2]);
        lemma_phases_push(three, effects[3]);
        lemma_phases_push(four, effects[4]);
        assert(effects =~= four.push(effects[4]));
    }
}

/// A press becomes one thing at most: a tap, a long press or a scroll. The events of a
/// scroll are one that starts it, any number that move it and, once the finger has left,
/// one that ends it.
pub proof fn a_press_becomes_one_thing(state: GestureState, inputs: Seq<GestureInput>)
    requires
        state is Pending,
        no_new_touch(inputs),
    ensures
        ({
            let phases = scroll_phases_of_all(state, inputs);
            let clicks = clicks_of_all(state, inputs);
            let last = gesture_after_all(state, inputs);
            &&& clicks <= 1
            &&& clicks == 1 ==> phases.len() == 0 && (last is LongPress || last is Idle)
            &&& last is Pending ==> clicks == 0 && phases.len() == 0
            &&& last is LongPress ==> clicks == 1
            &&& last !is Momentum
            &&& phases.len() > 0 ==> phases[0] == TouchPhase::Started
            &&& phases.len() > 0 ==> last is Scrolling || last is Idle
            &&& last is Scrolling ==> phases.len() > 0 && forall|i: int|
                0 < i < phases.len() ==> #[trigger] phases[i] == TouchPhase::Moved
            &&& phases.len() > 0 && last is Idle ==> {
                &&& phases.len() >= 2
                &&& phases.last() == TouchPhase::Ended
                &&& forall|i: int|
                    0 < i < phases.len() - 1 ==> #[trigger] phases[i] == TouchPhase::Moved
            }
        }),
    decreases inputs.len(),
{
    if inputs.len() > 0 {
        let before = inputs.drop_last();
        lemma_no_new_touch_before(inputs);
        a_press_becomes_one_thing(state, before);
        let middle = gesture_after_all(state, before);
        let phases_before = scroll_phases_of_all(state, before);
        if let GestureInput::Touch { motion, now } = inputs.last() {
            lemma_phases_of_event(middle, motion);
        }
        let phases = scroll_phases_of_all(state, inputs);
        assert(phases == phases_before + scroll_phases_of(middle, inputs.last()));
        assert forall|i: int| 0 <= i < phases_before.len() implies #[trigger] phases[i]
            == phases_before[i] by {}
    }
}

/// Whether an input leaves a press as it is: a move that is not past the slop, or a frame
/// before the press has lasted long enough.
pub open spec fn keeps_the_press(state: GestureState, input: GestureInput) -> bool {
    match input {
        GestureInput::Touch { motion, now } => motion.action == MotionAction::Move
            && !touch_slop().below(motion.travel),
        GestureInput::Tick { now } => !is_long_press(state, now),
    }
}

/// A press that neither travels past the slop nor lasts stays a press, and ends in one
/// click of the left button where the finger came down.
pub proof fn a_short_still_press_is_a_tap(
    state: GestureState,
    inputs: Seq<GestureInput>,
    up: MotionEvent,
    click_count: usize,
)
    requires
        state is Pending,
        forall|i: int| 0 <= i < inputs.len() ==> keeps_the_press(state, #[trigger] inputs[i]),
        up.action == MotionAction::Up,
    ensures
        gesture_after_all(state, inputs) is Pending,
        gesture_after_all(state, inputs)->Pending_start == state->Pending_start,
        gesture_after_all(state, inputs)->started_at == state->started_at,
        scroll_phases_of_all(state, inputs).len() == 0,
        clicks_of_all(state, inputs) == 0,
        is_tap(gesture_after_all(state, inputs), up),
        effects_of(gesture_after_all(state, inputs), up, click_count) == seq![
            Effect::Dispatch(spec_hover(state->Pending_start.position)),
            Effect::Dispatch(
                spec_press(MouseButton::Left, state->Pending_start.position, click_count),
            ),
            Effect::Dispatch(
                spec_release(MouseButton::Left, state->Pending_start.position, click_count),
            ),
            Effect::SummonSoftKeyboard,
            Effect::SynchronizeSoftKeyboard,
        ],
    decreases inputs.len(),
{
    if inputs.len() > 0 {
        let before = inputs.drop_last();
        assert forall|i: int| 0 <= i < before.len() implies keeps_the_press(
            state,
            #[trigger] before[i],
        ) by {
            assert(before[i] == inputs[i]);
        }
        assert(keeps_the_press(state, inputs[inputs.len() - 1]));
        a_short_still_press_is_a_tap(state, before, up, click_count);
        if let GestureInput::Touch { motion, now } = inputs.last() {
            lemma_phases_of_event(gesture_after_all(state, before), motion);
        }
    }
}

/// A long press swallows the rest of its gesture: until the next touch nothing is
/// clicked, nothing scrolls, nothing goes on as momentum, and it does not fire again.
pub proof fn a_long_press_swallows_the_gesture(inputs: Seq<GestureInput>)
    requires
        no_new_touch(inputs),
    ensures
        ({
            let last = gesture_after_all(GestureState::LongPress, inputs);
            &&& last is LongPress || last is Idle
            &&& clicks_of_all(GestureState::LongPress, inputs) == 0
            &&& scroll_phases_of_all(GestureState::LongPress, inputs).len() == 0
            &&& forall|motion: MotionEvent, click_count: usize|
                motion.action != MotionAction::Down ==> (#[trigger] effects_of(
                    last,
                    motion,
                    click_count,
                )).len() == 0 && fling_of(last, motion) is None
        }),
    decreases inputs.len(),
{
    if inputs.len() > 0 {
        lemma_no_new_touch_before(inputs);
        a_long_press_swallows_the_gesture(inputs.drop_last());
        if let GestureInput::Touch { motion, now } = inputs.last() {
            lemma_phases_of_event(
                gesture_after_all(GestureState::LongPress, inputs.drop_last()),
                motion,
            );
        }
    }
}

/// How far some effects scroll, to the right and down, in the units of [`Scalar::value`].
pub open spec fn scrolled(effects: Seq<Effect>) -> (int, int)
    decreases effects.len(),
{
    if effects.len() == 0 {
        (0, 0)
    } else {
        let before = scrolled(effects.drop_last());
        match effects.last() {
            Effect::Dispatch(PlatformInput::ScrollWheel(event)) => (
                before.0 + event.delta.x.value(),
                before.1 + event.delta.y.value(),
            ),
            _ => before,
        }
    }
}

/// How far one input scrolls.
pub open spec fn scrolled_by(state: GestureState, input: GestureInput) -> (int, int) {
    match input {
        GestureInput::Touch { motion, now } => scrolled(effects_of(state, motion, 0)),
        GestureInput::Tick { now } => (0, 0),
    }
}

/// How far several inputs scroll.
pub open spec fn scrolled_by_all(state: GestureState, inputs: Seq<GestureInput>) -> (int, int)
    decreases inputs.len(),
{
    if inputs.len() == 0 {
        (0, 0)
    } else {
        let before = scrolled_by_all(state, inputs.drop_last());
        let last = scrolled_by(gesture_after_all(state, inputs.drop_last()), inputs.last());
        (before.0 + last.0, before.1 + last.1)
    }
}

/// How far it is from one point to another.
pub open spec fn way(from: Point, to: Point) -> (int, int) {
    (to.x.value() - from.x.value(), to.y.value() - from.y.value())
}

/// Two ways lie within `error` of each other on both axes.
pub open spec fn within(a: (int, int), b: (int, int), error: nat) -> bool {
    &&& -error <= a.0 - b.0 <= error
    &&& -error <= a.1 - b.1 <= error
}

/// The `delta` of a move, or of the finger's leaving, lies within `error` of the way from
/// the gesture's anchor to the sample, where there is an anchor.
pub open spec fn measures_way(state: GestureState, motion: MotionEvent, error: nat) -> bool {
    spec_anchor(state) is Some && (motion.action == MotionAction::Move || motion.action
        == MotionAction::Up) ==> {
        &&& !motion.delta.x.spec_is_nan()
        &&& !motion.delta.y.spec_is_nan()
        &&& within(
            (motion.delta.x.value(), motion.delta.y.value()),
            way(spec_anchor(state)->0, motion.sample.position),
            error,
        )
    }
}

/// Every touch among the inputs is measured against what the gesture is by then.
pub open spec fn all_measure_way(
    state: GestureState,
    inputs: Seq<GestureInput>,
    error: nat,
) -> bool
    decreases inputs.len(),
{
    inputs.len() > 0 ==> {
        &&& all_measure_way(state, inputs.drop_last(), error)
        &&& inputs.last() matches GestureInput::Touch { motion, now } ==> measures_way(
            gesture_after_all(state, inputs.drop_last()),
            motion,
            error,
        )
    }
}

/// Whether an input neither ends a touch nor begins one: a move, an event that is left
/// alone, or a frame in which no long press fires.
pub open spec fn goes_on(state: GestureState, input: GestureInput) -> bool {
    match input {
        GestureInput::Touch { motion, now } => motion.action == MotionAction::Move
            || motion.action == MotionAction::Other,
        GestureInput::Tick { now } => !is_long_press(state, now),
    }
}

/// None of the inputs ends the touch, fires a long press or begins another touch.
pub open spec fn all_go_on(state: GestureState, inputs: Seq<GestureInput>) -> bool
    decreases inputs.len(),
{
    inputs.len() > 0 ==> {
        &&& all_go_on(state, inputs.drop_last())
        &&& goes_on(gesture_after_all(state, inputs.drop_last()), inputs.last())
    }
}

/// Whether an input takes the finger past the slop.
pub open spec fn passes_the_slop(input: GestureInput) -> bool {
    input matches GestureInput::Touch { motion, now } && motion.action == MotionAction::Move
        && touch_slop().below(motion.travel)
}

proof fn lemma_scrolled_push(effects: Seq<Effect>, effect: Effect)
    ensures
        scrolled(effects.push(effect)) == match effect {
            Effect::Dispatch(PlatformInput::ScrollWheel(event)) => (
                scrolled(effects).0 + event.delta.x.value(),
                scrolled(effects).1 + event.delta.y.value(),
            ),
            _ => scrolled(effects),
        },
{
    assert(effects.push(effect).drop_last() =~= effects);
}

proof fn lemma_scrolled_by_event(state: GestureState, motion: MotionEvent)
    ensures
        scrolled(effects_of(state, motion, 0)) == match (motion.action, state) {
            (MotionAction::Move, GestureState::Pending { start, samples, started_at }) => {
                if touch_slop().below(motion.travel) {
                    (motion.delta.x.value(), motion.delta.y.value())
                } else {
                    (0, 0)
                }
            },
            (MotionAction::Move, GestureState::Scrolling { last, samples, last_moved_at_nanos }) => {
                (motion.delta.x.value(), motion.delta.y.value())
            },
            (MotionAction::Up, GestureState::Scrolling { last, samples, last_moved_at_nanos }) => {
                if motion.delta.spec_is_nonzero() {
                    (motion.delta.x.value(), motion.delta.y.value())
                } else {
                    (0, 0)
                }
            },
            _ => (0int, 0int),
        },
{
    let effects = effects_of(state, motion, 0);
    let none = Seq::<Effect>::empty();
    assert(zero().value() == 0);
    if effects.len() == 0 {
    } else if effects.len() == 1 {
        lemma_scrolled_push(none, effects[0]);
        assert(effects =~= none.push(effects[0]));
    } else if effects.len() == 2 {
        lemma_scrolled_push(none, effects[0]);
        lemma_scrolled_push(none.push(effects[0]), effects[1]);
        assert(effects =~= none.push(effects[0]).push(effects[1]));
    } else {
        let one = none.push(effects[0]);
        let two = one.push(effects[1]);
        let three = two.push(effects[2]);
        let four = three.push(effects[3]);
        lemma_scrolled_push(none, effects[0]);
        lemma_scrolled_push(one, effects[1]);
        lemma_scrolled_push(two, effects[2]);
        lemma_scrolled_push(three, effects[3]);
        lemma_scrolled_push(four, effects[4]);
        assert(effects =~= four.push(effects[4]));
    }
}

/// One more way to an end, measured within `error`, adds that much to what `count` have
/// added up to.
proof fn lemma_within_adds(
    sum: (int, int),
    from: Point,
    middle: Point,
    to: Point,
    delta: (int, int),
    count: nat,
    added: nat,
    error: nat,
)
    requires
        within(sum, way(from, middle), count * error),
        within(delta, way(middle, to), error),
        added > 0,
    ensures
        within((sum.0 + delta.0, sum.1 + delta.1), way(from, to), (count + added) * error),
{
    assert((count + added) * error >= count * error + error) by (nonlinear_arith)
        requires
            added > 0,
    ;
}

/// While a touch goes on, what it has scrolled is the way from where the finger came down
/// to where the scroll got to. It scrolls from the first move on that passes the slop.
/// Where each delta is measured within `error`, the sum is off by that much for each scroll
/// event at most, and by nothing where the deltas are exact.
pub proof fn a_scroll_keeps_up_with_the_finger(
    state: GestureState,
    inputs: Seq<GestureInput>,
    error: nat,
)
    requires
        state is Pending,
        all_go_on(state, inputs),
        all_measure_way(state, inputs, error),
    ensures
        ({
            let last = gesture_after_all(state, inputs);
            let passed = exists|i: int|
                0 <= i < inputs.len() && passes_the_slop(#[trigger] inputs[i]);
            let whole = way(state->Pending_start.position, last->last.position);
            &&& !passed ==> last is Pending && last->Pending_start == state->Pending_start
                && last->started_at == state->started_at && scrolled_by_all(state, inputs) == (
            0int, 0int)
            &&& passed ==> last is Scrolling && within(
                scrolled_by_all(state, inputs),
                whole,
                scroll_phases_of_all(state, inputs).len() * error,
            )
            &&& passed && error == 0 ==> scrolled_by_all(state, inputs) == whole
        }),
    decreases inputs.len(),
{
    if inputs.len() > 0 {
        let before = inputs.drop_last();
        a_scroll_keeps_up_with_the_finger(state, before, error);
        let middle = gesture_after_all(state, before);
        let start = state->Pending_start.position;
        let phases = scroll_phases_of_all(state, before);
        if let GestureInput::Touch { motion, now } = inputs.last() {
            lemma_scrolled_by_event(middle, motion);
            lemma_phases_of_event(middle, motion);
            if motion.action == MotionAction::Move && middle is Scrolling {
                lemma_within_adds(
                    scrolled_by_all(state, before),
                    start,
                    middle->last.position,
                    motion.sample.position,
                    (motion.delta.x.value(), motion.delta.y.value()),
                    phases.len(),
                    1,
                    error,
                );
            } else if passes_the_slop(inputs.last()) {
                assert(phases.len() * error >= 0) by (nonlinear_arith);
                lemma_within_adds(
                    (0, 0),
                    start,
                    start,
                    motion.sample.position,
                    (motion.delta.x.value(), motion.delta.y.value()),
                    phases.len(),
                    1,
                    error,
                );
            }
        }
        if exists|i: int| 0 <= i < before.len() && passes_the_slop(#[trigger] before[i]) {
            let i = choose|i: int| 0 <= i < before.len() && passes_the_slop(#[trigger] before[i]);
            assert(passes_the_slop(inputs[i]));
        } else if passes_the_slop(inputs.last()) {
            assert(passes_the_slop(inputs[inputs.len() - 1]));
        } else {
            assert forall|i: int| 0 <= i < inputs.len() implies !passes_the_slop(
                #[trigger] inputs[i],
            ) by {
                if i < before.len() {
                    assert(!passes_the_slop(before[i]));
                }
            }
        }
    }
}

/// The content follows the finger: the scroll events of one touch add up to the way from
/// where the finger came down to where it left, on both axes. What it travelled within the
/// slop and what is seen only when it leaves both count, and nothing counts twice. Where
/// each delta is measured within `error`, as a rounded difference is, the sum is off by that
/// much for each scroll event at most, and by nothing where the deltas are exact.
pub proof fn a_scroll_covers_the_whole_way(
    before: GestureState,
    down: MotionEvent,
    down_at: u64,
    inputs: Seq<GestureInput>,
    up: MotionEvent,
    up_at: u64,
    error: nat,
)
    requires
        down.action == MotionAction::Down,
        up.action == MotionAction::Up,
        all_go_on(gesture_after(before, down, down_at), inputs),
        exists|i: int| 0 <= i < inputs.len() && passes_the_slop(#[trigger] inputs[i]),
        all_measure_way(
            gesture_after(before, down, down_at),
            inputs.push(GestureInput::Touch { motion: up, now: up_at }),
            error,
        ),
    ensures
        scrolled_by(before, GestureInput::Touch { motion: down, now: down_at }) == (0int, 0int),
        ({
            let state = gesture_after(before, down, down_at);
            let all = inputs.push(GestureInput::Touch { motion: up, now: up_at });
            let whole = way(down.sample.position, up.sample.position);
            &&& within(
                scrolled_by_all(state, all),
                whole,
                scroll_phases_of_all(state, all).len() * error,
            )
            &&& error == 0 ==> scrolled_by_all(state, all) == whole
        }),
{
    let state = gesture_after(before, down, down_at);
    let all = inputs.push(GestureInput::Touch { motion: up, now: up_at });
    assert(all.drop_last() =~= inputs);
    lemma_scrolled_by_event(before, down);
    a_scroll_keeps_up_with_the_finger(state, inputs, error);
    let middle = gesture_after_all(state, inputs);
    lemma_scrolled_by_event(middle, up);
    lemma_phases_of_event(middle, up);
    assert(zero().value() == 0);
    let phases = scroll_phases(effects_of(middle, up, 0));
    lemma_within_adds(
        scrolled_by_all(state, inputs),
        down.sample.position,
        middle->last.position,
        up.sample.position,
        (up.delta.x.value(), up.delta.y.value()),
        scroll_phases_of_all(state, inputs).len(),
        phases.len(),
        error,
    );
}

/// A finger that rests on the screen starts no momentum when it lifts.
pub proof fn a_resting_finger_starts_no_momentum(state: GestureState, up: MotionEvent)
    requires
        state is Scrolling,
        up.action == MotionAction::Up,
        !up.delta.spec_is_nonzero(),
        up.sample.event_time_nanos - state->last_moved_at_nanos > HOLD_SUPPRESSES_MOMENTUM_NANOS,
    ensures
        fling_of(state, up) is None,
{
}

/// What a gesture becomes with several steps of momentum, each with its time, the first of
/// them first.
pub open spec fn gesture_after_steps(
    state: GestureState,
    steps: Seq<(MomentumStep, u64)>,
) -> GestureState
    decreases steps.len(),
{
    if steps.len() == 0 {
        state
    } else {
        gesture_after_step(
            gesture_after_steps(state, steps.drop_last()),
            steps.last().0,
            steps.last().1,
        )
    }
}

/// Momentum goes on from where the finger left while it is fast enough, and moves the
/// content with each step. The first step that is too slow ends it with an event that
/// moves nothing, and after that there are no more events.
pub proof fn momentum_ends_when_slow(state: GestureState, steps: Seq<(MomentumStep, u64)>)
    requires
        state is Momentum,
        steps.len() > 0,
    ensures
        ({
            let fast = forall|i: int|
                0 <= i < steps.len() - 1 ==> !(#[trigger] steps[i]).0.speed.below(
                    momentum_minimum_speed(),
                );
            let before = gesture_after_steps(state, steps.drop_last());
            let event = step_event(before, steps.last().0);
            let slow = steps.last().0.speed.below(momentum_minimum_speed());
            &&& fast ==> before is Momentum && before->Momentum_position
                == state->Momentum_position
            &&& fast && !slow ==> event == Some(
                spec_scroll(state->Momentum_position, steps.last().0.delta, TouchPhase::Moved),
            )
            &&& fast && slow ==> event == Some(
                spec_scroll(state->Momentum_position, Point::spec_origin(), TouchPhase::Ended),
            ) && gesture_after_steps(state, steps) is Idle
            &&& !fast ==> event is None && gesture_after_steps(state, steps) is Idle
        }),
    decreases steps.len(),
{
    let before = steps.drop_last();
    if before.len() > 0 {
        momentum_ends_when_slow(state, before);
        assert(forall|i: int| 0 <= i < before.len() ==> #[trigger] before[i] == steps[i]);
        if forall|i: int|
            0 <= i < steps.len() - 1 ==> !(#[trigger] steps[i]).0.speed.below(
                momentum_minimum_speed(),
            ) {
            assert(steps[before.len() - 1] == before.last());
        } else {
            let i = choose|i: int|
                0 <= i < steps.len() - 1 && (#[trigger] steps[i]).0.speed.below(
                    momentum_minimum_speed(),
                );
            assert(before[i] == steps[i]);
        }
    }
}

/// The phases of the events that several steps of momentum lead to.
pub open spec fn step_phases(state: GestureState, steps: Seq<(MomentumStep, u64)>) -> Seq<
    TouchPhase,
>
    decreases steps.len(),
{
    if steps.len() == 0 {
        seq![]
    } else {
        let before = step_phases(state, steps.drop_last());
        match step_event(gesture_after_steps(state, steps.drop_last()), steps.last().0) {
            Some(event) => before.push(event.touch_phase),
            None => before,
        }
    }
}

proof fn lemma_step_phases(state: GestureState, steps: Seq<(MomentumStep, u64)>)
    requires
        state is Momentum,
    ensures
        ({
            let last = gesture_after_steps(state, steps);
            let phases = step_phases(state, steps);
            &&& last is Momentum || last is Idle
            &&& last is Momentum ==> phases.len() == steps.len() && forall|i: int|
                0 <= i < phases.len() ==> #[trigger] phases[i] == TouchPhase::Moved
            &&& last is Idle ==> 0 < phases.len() <= steps.len() && phases.last()
                == TouchPhase::Ended && forall|i: int|
                0 <= i < phases.len() - 1 ==> #[trigger] phases[i] == TouchPhase::Moved
        }),
    decreases steps.len(),
{
    if steps.len() > 0 {
        lemma_step_phases(state, steps.drop_last());
    }
}

/// Once momentum has ended, more steps lead to no more events.
proof fn lemma_idle_stays(state: GestureState, steps: Seq<(MomentumStep, u64)>, count: int)
    requires
        0 <= count <= steps.len(),
        gesture_after_steps(state, steps.take(count)) is Idle,
    ensures
        gesture_after_steps(state, steps) is Idle,
        step_phases(state, steps) == step_phases(state, steps.take(count)),
    decreases steps.len() - count,
{
    if count == steps.len() {
        assert(steps.take(count) =~= steps);
    } else {
        assert(steps.drop_last().take(count) =~= steps.take(count));
        lemma_idle_stays(state, steps.drop_last(), count);
    }
}

/// `speed` is at most 906 thousandths of `previous`. A step of 50 milliseconds leaves
/// less than 905 thousandths of a velocity.
pub open spec fn slows(previous: Scalar, speed: Scalar) -> bool {
    !speed.spec_is_nan() && 1000 * speed.value() <= 906 * previous.value()
}

/// The speed before a step: that at the start, or that after the step before it.
pub open spec fn speed_before(
    speed: Scalar,
    steps: Seq<(MomentumStep, u64)>,
    index: int,
) -> Scalar {
    if index <= 0 {
        speed
    } else {
        steps[index - 1].0.speed
    }
}

/// Seven steps leave at most 502 thousandths of the speed.
proof fn lemma_seven_steps_slow(speed: Scalar, steps: Seq<(MomentumStep, u64)>, from: int)
    requires
        0 <= from <= steps.len() - 7,
        forall|i: int|
            0 <= i < steps.len() ==> slows(
                #[trigger] speed_before(speed, steps, i),
                steps[i].0.speed,
            ),
        speed_before(speed, steps, from).value() >= 0,
    ensures
        1000 * speed_before(speed, steps, from + 7).value() <= 502 * speed_before(
            speed,
            steps,
            from,
        ).value(),
{
    let v0 = speed_before(speed, steps, from).value();
    let v1 = speed_before(speed, steps, from + 1).value();
    let v2 = speed_before(speed, steps, from + 2).value();
    let v3 = speed_before(speed, steps, from + 3).value();
    let v4 = speed_before(speed, steps, from + 4).value();
    let v5 = speed_before(speed, steps, from + 5).value();
    let v6 = speed_before(speed, steps, from + 6).value();
    let v7 = speed_before(speed, steps, from + 7).value();
    assert(1000 * v1 <= 906 * v0);
    assert(1000 * v2 <= 906 * v1);
    assert(1000 * v3 <= 906 * v2);
    assert(1000 * v4 <= 906 * v3);
    assert(1000 * v5 <= 906 * v4);
    assert(1000 * v6 <= 906 * v5);
    assert(1000 * v7 <= 906 * v6);
}

/// Thirty-five steps leave at most one part in 31 of the speed.
proof fn lemma_many_steps_slow(speed: Scalar, steps: Seq<(MomentumStep, u64)>, from: int)
    requires
        0 <= from <= steps.len() - 35,
        forall|i: int|
            0 <= i < steps.len() ==> slows(
                #[trigger] speed_before(speed, steps, i),
                steps[i].0.speed,
            ),
        forall|i: int| 0 <= i <= steps.len() ==> (#[trigger] speed_before(speed, steps, i)).value()
            >= 0,
    ensures
        31 * speed_before(speed, steps, from + 35).value() <= speed_before(
            speed,
            steps,
            from,
        ).value(),
{
    lemma_seven_steps_slow(speed, steps, from);
    lemma_seven_steps_slow(speed, steps, from + 7);
    lemma_seven_steps_slow(speed, steps, from + 14);
    lemma_seven_steps_slow(speed, steps, from + 21);
    lemma_seven_steps_slow(speed, steps, from + 28);
}

/// Momentum that starts no faster than the fastest fling, and that each step slows as a
/// step of full length does, is over after 70 steps at most. Its events are any number
/// that move the content and then one that ends the scroll; more steps lead to none.
/// `speed` is the length of the velocity at the start.
pub proof fn momentum_is_soon_over(
    state: GestureState,
    speed: Scalar,
    steps: Seq<(MomentumStep, u64)>,
)
    requires
        state is Momentum,
        !speed.spec_is_nan(),
        0 <= speed.value() <= 8000 * pow2(149),
        steps.len() >= 70,
        forall|i: int|
            0 <= i < 70 && gesture_after_steps(state, #[trigger] steps.take(i)) is Momentum ==> {
                &&& slows(speed_before(speed, steps, i), steps[i].0.speed)
                &&& 0 <= steps[i].0.speed.value()
            },
    ensures
        gesture_after_steps(state, steps) is Idle,
        ({
            let phases = step_phases(state, steps);
            &&& 0 < phases.len() <= 70
            &&& phases.last() == TouchPhase::Ended
            &&& forall|i: int|
                0 <= i < phases.len() - 1 ==> #[trigger] phases[i] == TouchPhase::Moved
        }),
{
    let first = steps.take(70);
    lemma_step_phases(state, first);
    if gesture_after_steps(state, first) is Momentum {
        assert forall|i: int| 0 <= i < 70 implies slows(
            #[trigger] speed_before(speed, first, i),
            first[i].0.speed,
        ) && 0 <= first[i].0.speed.value() by {
            let some = steps.take(i);
            assert(first.take(i) =~= some);
            lemma_step_phases(state, some);
            if gesture_after_steps(state, some) is Idle {
                lemma_idle_stays(state, first, i);
            }
            assert(speed_before(speed, first, i) == speed_before(speed, steps, i));
        }
        assert forall|i: int| 0 <= i <= first.len() implies (#[trigger] speed_before(
            speed,
            first,
            i,
        )).value() >= 0 by {
            if i > 0 {
                assert(slows(speed_before(speed, first, i - 1), first[i - 1].0.speed));
            }
        }
        lemma_many_steps_slow(speed, first, 0);
        lemma_many_steps_slow(speed, first, 35);
        touch_limits();
        vstd::arithmetic::power2::lemma_pow2_pos(149);
        assert(slows(speed_before(speed, first, 69), first[69].0.speed));
        assert(speed_before(speed, first, 70) == first.last().0.speed);
        assert(first.last().0.speed.below(momentum_minimum_speed()));
        momentum_ends_when_slow(state, first);
    }
    lemma_idle_stays(state, steps, 70);
}

/// A tap that is closer than 16 pixels to the last one and less than 400 milliseconds
/// after it counts one more, and any other tap starts again with one.
pub proof fn quick_taps_count_up(last: ClickState, distance: Scalar, earlier: u64, now: u64)
    requires
        last.last_time == Some(earlier),
    ensures
        elapsed_nanos(earlier, now) < 400_000_000 && distance.below(double_tap_distance())
            ==> last.count_at(distance, now) == last.current_count + 1,
        elapsed_nanos(earlier, now) >= 400_000_000 || !distance.below(double_tap_distance())
            ==> last.count_at(distance, now) == 1,
{
}

/// The slop is 8 logical pixels, taps of a double tap are closer than 16, and momentum
/// ends below 10 logical pixels per second.
pub proof fn touch_limits()
    ensures
        touch_slop().value() == 8 * pow2(149),
        double_tap_distance().value() == 16 * pow2(149),
        momentum_minimum_speed().value() == 10 * pow2(149),
{
    lemma2_to64();
    whole_number_value(touch_slop(), 3, 8);
    whole_number_value(double_tap_distance(), 4, 16);
    whole_number_value(momentum_minimum_speed(), 3, 10);
}

/// A gesture is seen as what it is, with nothing left out or exchanged.
pub proof fn a_gesture_is_seen_whole(
    sample: TouchSample,
    tracker: VelocityTracker,
    time: i64,
    clock: u64,
    velocity: Point,
    position: Point,
)
    ensures
        TouchGesture::Idle@ is Idle,
        TouchGesture::LongPress@ is LongPress,
        ({
            let seen = (TouchGesture::Pending {
                start: sample,
                velocity: tracker,
                started_at: clock,
            })@;
            &&& seen is Pending
            &&& seen->Pending_start == sample
            &&& seen->Pending_samples == tracker.samples@
            &&& seen->started_at == clock
        }),
        ({
            let seen = (TouchGesture::Scrolling {
                last: sample,
                velocity: tracker,
                last_moved_at_nanos: time,
            })@;
            &&& seen is Scrolling
            &&& seen->last == sample
            &&& seen->Scrolling_samples == tracker.samples@
            &&& seen->last_moved_at_nanos == time
        }),
        ({
            let seen = (TouchGesture::Momentum { velocity, position, last_tick: clock })@;
            &&& seen is Momentum
            &&& seen->Momentum_velocity == velocity
            &&& seen->Momentum_position == position
            &&& seen->last_tick == clock
        }),
{
}

/// The time that has passed, added to the earlier reading of a clock, is the later one. A
/// clock that went back has let none pass.
pub proof fn elapsed_time_leads_to_now(earlier: u64, later: u64)
    ensures
        earlier <= later ==> earlier + elapsed_nanos(earlier, later) == later,
        later <= earlier ==> elapsed_nanos(earlier, later) == 0,
{
}

/// A finger that comes down begins a press there and then, whatever was going on, and
/// nothing is to be done for it yet. Travel is measured from that point, and the press
/// becomes a long one half a second later and no sooner.
pub proof fn a_finger_begins_a_press(
    before: GestureState,
    down: MotionEvent,
    now: u64,
    later: u64,
    click_count: usize,
)
    requires
        down.action == MotionAction::Down,
    ensures
        ({
            let press = gesture_after(before, down, now);
            &&& press is Pending
            &&& press->Pending_start == down.sample
            &&& press->Pending_samples == seq![down.sample]
            &&& press->started_at == now
            &&& spec_anchor(press) == Some(down.sample.position)
            &&& is_long_press(press, later) <==> later - now >= 500_000_000
            &&& !is_tap(before, down)
            &&& effects_of(before, down, click_count).len() == 0
            &&& fling_of(before, down) is None
        }),
{
}

/// Only a press becomes a long one, half a second after it began.
pub proof fn only_a_press_becomes_a_long_press(state: GestureState, now: u64)
    ensures
        is_long_press(state, now) <==> state is Pending && now - state->started_at >= 500_000_000,
{
}

/// A finger that leaves ends what it did, and so does a touch that is taken away. An event of
/// another kind changes nothing, and neither does a move without a press or a scroll.
pub proof fn a_gesture_ends_with_the_finger(
    state: GestureState,
    motion: MotionEvent,
    now: u64,
    click_count: usize,
)
    ensures
        motion.action == MotionAction::Up || motion.action == MotionAction::Cancel
            ==> gesture_after(state, motion, now) is Idle,
        motion.action == MotionAction::Other ==> gesture_after(state, motion, now) == state
            && effects_of(state, motion, click_count).len() == 0,
        motion.action == MotionAction::Move && state !is Pending && state !is Scrolling
            ==> gesture_after(state, motion, now) == state && effects_of(
            state,
            motion,
            click_count,
        ).len() == 0,
        motion.action == MotionAction::Up && state !is Pending && state !is Scrolling
            ==> effects_of(state, motion, click_count).len() == 0,
        is_tap(state, motion) <==> motion.action == MotionAction::Up && state is Pending,
        fling_of(state, motion) is Some ==> motion.action == MotionAction::Up
            && state is Scrolling,
        spec_anchor(state) is Some <==> state is Pending || state is Scrolling,
{
}

/// A move of more than 8 logical pixels turns a press into a scroll. Its first event lies
/// where the finger came down and covers the whole move; a shorter move is no event at all
/// and leaves the press where it began.
pub proof fn a_scroll_starts_where_the_finger_came_down(
    state: GestureState,
    motion: MotionEvent,
    now: u64,
    click_count: usize,
)
    requires
        state is Pending,
        motion.action == MotionAction::Move,
    ensures
        ({
            let far = !motion.travel.spec_is_nan() && motion.travel.value() > 8 * pow2(149);
            let next = gesture_after(state, motion, now);
            let effects = effects_of(state, motion, click_count);
            &&& far ==> {
                &&& next is Scrolling
                &&& next->last == motion.sample
                &&& next->Scrolling_samples == with_sample(state->Pending_samples, motion.sample)
                &&& next->last_moved_at_nanos == motion.sample.event_time_nanos
                &&& spec_anchor(next) == Some(motion.sample.position)
                &&& effects == seq![
                    Effect::Dispatch(
                        PlatformInput::ScrollWheel(
                            ScrollWheelEvent {
                                position: state->Pending_start.position,
                                delta: motion.delta,
                                modifiers: Modifiers {
                                    control: false,
                                    alt: false,
                                    shift: false,
                                    platform: false,
                                    function: false,
                                },
                                touch_phase: TouchPhase::Started,
                            },
                        ),
                    ),
                ]
            }
            &&& !far ==> {
                &&& next is Pending
                &&& next->Pending_start == state->Pending_start
                &&& next->Pending_samples == with_sample(state->Pending_samples, motion.sample)
                &&& next->started_at == state->started_at
                &&& spec_anchor(next) == Some(state->Pending_start.position)
                &&& effects.len() == 0
            }
        }),
{
    touch_limits();
}

/// While a scroll goes on each move is one event where the finger is, by as much as the
/// finger moved. When the finger leaves, what it moved since is one more such event, and
/// then comes one that moves nothing and ends the scroll where the finger left. A touch that
/// is taken away ends the scroll, or the momentum after it, in the same way.
pub proof fn a_scroll_goes_on_where_the_finger_is(
    state: GestureState,
    motion: MotionEvent,
    click_count: usize,
)
    ensures
        ({
            let keys = Modifiers {
                control: false,
                alt: false,
                shift: false,
                platform: false,
                function: false,
            };
            let moved = Effect::Dispatch(
                PlatformInput::ScrollWheel(
                    ScrollWheelEvent {
                        position: motion.sample.position,
                        delta: motion.delta,
                        modifiers: keys,
                        touch_phase: TouchPhase::Moved,
                    },
                ),
            );
            let ended = Effect::Dispatch(
                PlatformInput::ScrollWheel(
                    ScrollWheelEvent {
                        position: motion.sample.position,
                        delta: Point { x: Scalar { bits: 0 }, y: Scalar { bits: 0 } },
                        modifiers: keys,
                        touch_phase: TouchPhase::Ended,
                    },
                ),
            );
            let still = motion.delta.x.equals(Scalar { bits: 0 }) && motion.delta.y.equals(
                Scalar { bits: 0 },
            );
            let effects = effects_of(state, motion, click_count);
            &&& state is Scrolling && motion.action == MotionAction::Move ==> effects == seq![moved]
            &&& state is Scrolling && motion.action == MotionAction::Up && still ==> effects
                == seq![ended]
            &&& state is Scrolling && motion.action == MotionAction::Up && !still ==> effects
                == seq![moved, ended]
            &&& (state is Scrolling || state is Momentum) && motion.action == MotionAction::Cancel
                ==> effects == seq![ended]
            &&& state !is Scrolling && state !is Momentum && motion.action == MotionAction::Cancel
                ==> effects.len() == 0
        }),
{
}

/// A tap is a move of the pointer to where the finger came down, and a press and a release
/// of the left button there, with no key held. They count as many clicks as taps came in a
/// row. After them the keyboard is asked for, and the input method is told of the caret.
pub proof fn a_tap_clicks_where_the_finger_came_down(
    state: GestureState,
    up: MotionEvent,
    click_count: usize,
)
    requires
        state is Pending,
        up.action == MotionAction::Up,
    ensures
        ({
            let effects = effects_of(state, up, click_count);
            let position = state->Pending_start.position;
            let keys = Modifiers {
                control: false,
                alt: false,
                shift: false,
                platform: false,
                function: false,
            };
            &&& effects.len() == 5
            &&& effects[0] == Effect::Dispatch(
                PlatformInput::MouseMove(
                    MouseMoveEvent { position, pressed_button: None, modifiers: keys },
                ),
            )
            &&& effects[1] == Effect::Dispatch(
                PlatformInput::MouseDown(
                    MouseDownEvent {
                        button: MouseButton::Left,
                        position,
                        modifiers: keys,
                        click_count,
                        first_mouse: false,
                    },
                ),
            )
            &&& effects[2] == Effect::Dispatch(
                PlatformInput::MouseUp(
                    MouseUpEvent { button: MouseButton::Left, position, modifiers: keys, click_count },
                ),
            )
            &&& effects[3] is SummonSoftKeyboard
            &&& effects[4] is SynchronizeSoftKeyboard
            &&& fling_of(state, up) is None
        }),
{
}

/// A long press is a double click of the left button and then a click of the right one, both
/// where the finger came down and with no key held.
pub proof fn a_long_press_clicks_where_the_finger_came_down(position: Point)
    ensures
        ({
            let inputs = long_press_inputs(position);
            let keys = Modifiers {
                control: false,
                alt: false,
                shift: false,
                platform: false,
                function: false,
            };
            &&& inputs.len() == 4
            &&& inputs[0] == PlatformInput::MouseDown(
                MouseDownEvent {
                    button: MouseButton::Left,
                    position,
                    modifiers: keys,
                    click_count: 2,
                    first_mouse: false,
                },
            )
            &&& inputs[1] == PlatformInput::MouseUp(
                MouseUpEvent { button: MouseButton::Left, position, modifiers: keys, click_count: 2 },
            )
            &&& inputs[2] == PlatformInput::MouseDown(
                MouseDownEvent {
                    button: MouseButton::Right,
                    position,
                    modifiers: keys,
                    click_count: 1,
                    first_mouse: false,
                },
            )
            &&& inputs[3] == PlatformInput::MouseUp(
                MouseUpEvent {
                    button: MouseButton::Right,
                    position,
                    modifiers: keys,
                    click_count: 1,
                },
            )
        }),
{
}

/// A press stays one until the first move that passes the slop, and scrolls from there on.
proof fn lemma_scrolls_once_past_the_slop(state: GestureState, inputs: Seq<GestureInput>)
    requires
        state is Pending,
        all_go_on(state, inputs),
    ensures
        ({
            let last = gesture_after_all(state, inputs);
            let passed = exists|i: int|
                0 <= i < inputs.len() && passes_the_slop(#[trigger] inputs[i]);
            &&& !passed ==> last is Pending && last->Pending_start == state->Pending_start
            &&& passed ==> last is Scrolling
        }),
    decreases inputs.len(),
{
    if inputs.len() > 0 {
        let before = inputs.drop_last();
        lemma_scrolls_once_past_the_slop(state, before);
        if exists|i: int| 0 <= i < before.len() && passes_the_slop(#[trigger] before[i]) {
            let i = choose|i: int| 0 <= i < before.len() && passes_the_slop(#[trigger] before[i]);
            assert(passes_the_slop(inputs[i]));
        } else if passes_the_slop(inputs.last()) {
            assert(passes_the_slop(inputs[inputs.len() - 1]));
        } else {
            assert forall|i: int| 0 <= i < inputs.len() implies !passes_the_slop(
                #[trigger] inputs[i],
            ) by {
                if i < before.len() {
                    assert(!passes_the_slop(before[i]));
                }
            }
        }
    }
}

/// Whether an input moves the finger from where it was.
pub open spec fn moves_the_finger(input: GestureInput) -> bool {
    input matches GestureInput::Touch { motion, now } && motion.action == MotionAction::Move && !(
    motion.delta.x.equals(Scalar { bits: 0 }) && motion.delta.y.equals(Scalar { bits: 0 }))
}

/// Whether an input is the first that passes the slop, or one after it that moves the finger.
pub open spec fn moves_the_scroll(inputs: Seq<GestureInput>, index: int) -> bool {
    let passed = exists|i: int| 0 <= i < index && passes_the_slop(#[trigger] inputs[i]);
    if passed {
        moves_the_finger(inputs[index])
    } else {
        passes_the_slop(inputs[index])
    }
}

/// A scroll knows when it last moved: the time of the latest move among its inputs that moved
/// it, by the event's own clock. Moves by nothing, events of another kind and frames that
/// came after it make no difference.
pub proof fn a_scroll_knows_when_it_last_moved(
    state: GestureState,
    inputs: Seq<GestureInput>,
    index: int,
    moved: MotionEvent,
    at: u64,
)
    requires
        state is Pending,
        all_go_on(state, inputs),
        0 <= index < inputs.len(),
        inputs[index] == (GestureInput::Touch { motion: moved, now: at }),
        moves_the_scroll(inputs, index),
        forall|i: int| index < i < inputs.len() ==> !moves_the_finger(#[trigger] inputs[i]),
    ensures
        gesture_after_all(state, inputs) is Scrolling,
        gesture_after_all(state, inputs)->last_moved_at_nanos == moved.sample.event_time_nanos,
    decreases inputs.len(),
{
    let before = inputs.drop_last();
    assert(forall|i: int| 0 <= i < before.len() ==> #[trigger] before[i] == inputs[i]);
    if index == inputs.len() - 1 {
        lemma_scrolls_once_past_the_slop(state, before);
        if exists|i: int| 0 <= i < index && passes_the_slop(#[trigger] inputs[i]) {
            let i = choose|i: int| 0 <= i < index && passes_the_slop(#[trigger] inputs[i]);
            assert(passes_the_slop(before[i]));
        } else {
            assert forall|i: int| 0 <= i < before.len() implies !passes_the_slop(
                #[trigger] before[i],
            ) by {
                assert(!passes_the_slop(inputs[i]));
            }
        }
    } else {
        if exists|i: int| 0 <= i < index && passes_the_slop(#[trigger] inputs[i]) {
            let i = choose|i: int| 0 <= i < index && passes_the_slop(#[trigger] inputs[i]);
            assert(passes_the_slop(before[i]));
        } else {
            assert forall|i: int| 0 <= i < index implies !passes_the_slop(
                #[trigger] before[i],
            ) by {
                assert(!passes_the_slop(inputs[i]));
            }
        }
        assert(moves_the_scroll(before, index));
        assert forall|i: int| index < i < before.len() implies !moves_the_finger(
            #[trigger] before[i],
        ) by {
            assert(!moves_the_finger(inputs[i]));
        }
        a_scroll_knows_when_it_last_moved(state, before, index, moved, at);
        assert(!moves_the_finger(inputs[inputs.len() - 1]));
    }
}

/// A scroll has got to where its latest move was, and travel is measured from there.
pub proof fn a_scroll_is_where_its_latest_move_was(
    state: GestureState,
    inputs: Seq<GestureInput>,
    index: int,
    moved: MotionEvent,
    at: u64,
)
    requires
        state is Pending,
        all_go_on(state, inputs),
        0 <= index < inputs.len(),
        inputs[index] == (GestureInput::Touch { motion: moved, now: at }),
        moved.action == MotionAction::Move,
        exists|i: int| 0 <= i <= index && passes_the_slop(#[trigger] inputs[i]),
        forall|i: int|
            index < i < inputs.len() ==> !(#[trigger] inputs[i] matches GestureInput::Touch {
                motion,
                now,
            } && motion.action == MotionAction::Move),
    ensures
        gesture_after_all(state, inputs) is Scrolling,
        gesture_after_all(state, inputs)->last == moved.sample,
        spec_anchor(gesture_after_all(state, inputs)) == Some(moved.sample.position),
    decreases inputs.len(),
{
    let before = inputs.drop_last();
    assert(forall|i: int| 0 <= i < before.len() ==> #[trigger] before[i] == inputs[i]);
    let passed = choose|i: int| 0 <= i <= index && passes_the_slop(#[trigger] inputs[i]);
    if index == inputs.len() - 1 {
        lemma_scrolls_once_past_the_slop(state, before);
        if passed < index {
            assert(passes_the_slop(before[passed]));
        }
    } else {
        assert(passes_the_slop(before[passed]));
        assert forall|i: int| index < i < before.len() implies !(
        #[trigger] before[i] matches GestureInput::Touch { motion, now } && motion.action
            == MotionAction::Move) by {
            assert(before[i] == inputs[i]);
        }
        a_scroll_is_where_its_latest_move_was(state, before, index, moved, at);
        assert(inputs[inputs.len() - 1] == inputs.last());
    }
}

/// The samples after those of the moves among the inputs were taken up, one after the other.
pub open spec fn with_moves(samples: Seq<TouchSample>, inputs: Seq<GestureInput>) -> Seq<
    TouchSample,
>
    decreases inputs.len(),
{
    if inputs.len() == 0 {
        samples
    } else {
        let before = with_moves(samples, inputs.drop_last());
        match inputs.last() {
            GestureInput::Touch { motion, now } => {
                if motion.action == MotionAction::Move {
                    with_sample(before, motion.sample)
                } else {
                    before
                }
            },
            GestureInput::Tick { now } => before,
        }
    }
}

/// A touch keeps the sample of every move, before it passes the slop and after, next to the
/// one with which the finger came down, as far as a tracker keeps them.
pub proof fn a_touch_keeps_its_samples(
    before: GestureState,
    down: MotionEvent,
    down_at: u64,
    inputs: Seq<GestureInput>,
)
    requires
        down.action == MotionAction::Down,
        all_go_on(gesture_after(before, down, down_at), inputs),
    ensures
        ({
            let last = gesture_after_all(gesture_after(before, down, down_at), inputs);
            let samples = with_moves(seq![down.sample], inputs);
            &&& in_order(samples)
            &&& samples.len() > 0
            &&& last is Pending || last is Scrolling
            &&& last is Pending ==> last->Pending_samples == samples
            &&& last is Scrolling ==> last->Scrolling_samples == samples
        }),
    decreases inputs.len(),
{
    if inputs.len() > 0 {
        a_touch_keeps_its_samples(before, down, down_at, inputs.drop_last());
        let samples = with_moves(seq![down.sample], inputs.drop_last());
        if let GestureInput::Touch { motion, now } = inputs.last() {
            samples_stay_in_order(samples, motion.sample);
            if samples.last().event_time_nanos <= motion.sample.event_time_nanos {
                samples_lie_within_the_window(samples, motion.sample);
            }
        }
    }
}

/// A finger that leaves a scroll no more than 100 milliseconds after it last moved it flings
/// the content: the movement is that of the samples of the whole touch, the one with which
/// the finger leaves included, as far as they are kept. Where that one is later than all the
/// others there is a movement, and it ends there. A finger that has rested for longer flings
/// nothing. `index` is the latest move that moved the scroll.
pub proof fn a_moving_finger_flings(
    before: GestureState,
    down: MotionEvent,
    down_at: u64,
    inputs: Seq<GestureInput>,
    index: int,
    moved: MotionEvent,
    at: u64,
    up: MotionEvent,
)
    requires
        down.action == MotionAction::Down,
        up.action == MotionAction::Up,
        all_go_on(gesture_after(before, down, down_at), inputs),
        0 <= index < inputs.len(),
        inputs[index] == (GestureInput::Touch { motion: moved, now: at }),
        moves_the_scroll(inputs, index),
        forall|i: int| index < i < inputs.len() ==> !moves_the_finger(#[trigger] inputs[i]),
    ensures
        ({
            let last = gesture_after_all(gesture_after(before, down, down_at), inputs);
            let samples = with_moves(seq![down.sample], inputs);
            let still = up.delta.x.equals(Scalar { bits: 0 }) && up.delta.y.equals(
                Scalar { bits: 0 },
            );
            let rested = if still {
                up.sample.event_time_nanos - moved.sample.event_time_nanos
            } else {
                0
            };
            let fling = fling_of(last, up);
            &&& rested > 100_000_000 ==> fling is None
            &&& rested <= 100_000_000 ==> fling == span_of(with_sample(samples, up.sample))
            &&& rested <= 100_000_000 && samples.last().event_time_nanos
                < up.sample.event_time_nanos ==> {
                &&& fling is Some
                &&& fling->0.last == up.sample
                &&& fling->0.first.event_time_nanos < up.sample.event_time_nanos
                &&& samples.contains(fling->0.first)
            }
        }),
{
    let state = gesture_after(before, down, down_at);
    let samples = with_moves(seq![down.sample], inputs);
    a_scroll_knows_when_it_last_moved(state, inputs, index, moved, at);
    a_touch_keeps_its_samples(before, down, down_at, inputs);
    if samples.last().event_time_nanos < up.sample.event_time_nanos {
        let left_out = a_later_sample_joins_the_recent_ones(samples, up.sample);
        let kept = with_sample(samples, up.sample);
        assert(kept[0] == samples[left_out]);
        assert(kept.last() == up.sample);
        assert(samples[left_out].event_time_nanos <= samples.last().event_time_nanos);
    }
}

/// A step of momentum that is no slower than 10 logical pixels per second leaves its own
/// velocity, on both axes, and its own time, and scrolls by its own delta where the finger
/// left. A slower one ends the momentum with an event that moves nothing. There is no step
/// without momentum.
pub proof fn a_step_leaves_its_velocity(state: GestureState, step: MomentumStep, now: u64)
    ensures
        ({
            let next = gesture_after_step(state, step, now);
            let event = step_event(state, step);
            let slow = !step.speed.spec_is_nan() && step.speed.value() < 10 * pow2(149);
            &&& state is Momentum && !slow ==> {
                &&& next is Momentum
                &&& next->Momentum_velocity.x == step.velocity.x
                &&& next->Momentum_velocity.y == step.velocity.y
                &&& next->Momentum_position == state->Momentum_position
                &&& next->last_tick == now
                &&& event is Some
                &&& event->0.touch_phase == TouchPhase::Moved
                &&& event->0.delta == step.delta
            }
            &&& state is Momentum && slow ==> {
                &&& next is Idle
                &&& event is Some
                &&& event->0.touch_phase == TouchPhase::Ended
                &&& event->0.delta.x.bits == 0
                &&& event->0.delta.y.bits == 0
            }
            &&& event is Some ==> {
                &&& event->0.position == state->Momentum_position
                &&& !event->0.modifiers.control && !event->0.modifiers.alt
                &&& !event->0.modifiers.shift && !event->0.modifiers.platform
                &&& !event->0.modifiers.function
            }
            &&& state !is Momentum ==> next == state && event is None
        }),
{
    touch_limits();
}

/// After any number of steps that are fast enough, momentum has the velocity and the time of
/// the last of them, and is where it began.
pub proof fn momentum_has_its_last_velocity(state: GestureState, steps: Seq<(MomentumStep, u64)>)
    requires
        state is Momentum,
        steps.len() > 0,
        forall|i: int|
            0 <= i < steps.len() ==> !(#[trigger] steps[i]).0.speed.below(momentum_minimum_speed()),
    ensures
        ({
            let last = gesture_after_steps(state, steps);
            &&& last is Momentum
            &&& last->Momentum_velocity == steps.last().0.velocity
            &&& last->last_tick == steps.last().1
            &&& last->Momentum_position == state->Momentum_position
        }),
    decreases steps.len(),
{
    let before = steps.drop_last();
    assert(forall|i: int| 0 <= i < before.len() ==> #[trigger] before[i] == steps[i]);
    if before.len() > 0 {
        momentum_has_its_last_velocity(state, before);
    }
    assert(!steps[steps.len() - 1].0.speed.below(momentum_minimum_speed()));
}

/// The longest step of momentum is a twentieth of a second and a millisecond of it leaves 998
/// thousandths of the velocity, both as near as numbers of this kind come.
pub proof fn momentum_limits()
    ensures
        20 * (Scalar { bits: MOMENTUM_LONGEST_STEP_BITS }).value() == pow2(149) + 4 * pow2(121),
        1000 * (Scalar { bits: MOMENTUM_DECAY_PER_MILLISECOND_BITS }).value() == 998 * pow2(149)
            + 432 * pow2(125),
{
    lemma2_to64();
    lemma_pow2_adds(28, 121);
    lemma_pow2_adds(24, 125);
    let step = Scalar { bits: MOMENTUM_LONGEST_STEP_BITS };
    let decay = Scalar { bits: MOMENTUM_DECAY_PER_MILLISECOND_BITS };
    assert(step.magnitude() / 0x80_0000 == 122 && step.magnitude() % 0x80_0000 == 0x4c_cccd);
    assert(decay.magnitude() / 0x80_0000 == 126 && decay.magnitude() % 0x80_0000 == 0x7f_7cee);
    assert(step.value() == 0xcc_cccd * pow2(121));
    assert(decay.value() == 0xff_7cee * pow2(125));
}

/// A tap counts one more than the last one where it is less than 400 milliseconds after it
/// and closer than 16 logical pixels to it, and else it is the first. Without a last one it
/// is the first too.
pub proof fn a_tap_counts_on_or_starts_again(last: ClickState, distance: Scalar, now: u64)
    ensures
        ({
            let quick = last.last_time is Some && now - last.last_time->0 < 400_000_000;
            let near = !distance.spec_is_nan() && distance.value() < 16 * pow2(149);
            &&& last.continues(distance, now) <==> quick && near
            &&& quick && near ==> last.count_at(distance, now) == last.current_count + 1
            &&& !(quick && near) ==> last.count_at(distance, now) == 1
        }),
{
    touch_limits();
}

/// A move takes a scroll along to its own sample, which joins the others. Only a move by
/// something other than nothing counts as one when the finger leaves: that a scroll moved at
/// all is forgotten 100 milliseconds after the latest such move.
pub proof fn a_move_takes_a_scroll_along(
    state: GestureState,
    motion: MotionEvent,
    now: u64,
    up: MotionEvent,
)
    requires
        state is Scrolling,
        motion.action == MotionAction::Move,
        up.action == MotionAction::Up,
        up.delta.x.bits == 0,
        up.delta.y.bits == 0,
    ensures
        ({
            let next = gesture_after(state, motion, now);
            let still = motion.delta.x.equals(Scalar { bits: 0 }) && motion.delta.y.equals(
                Scalar { bits: 0 },
            );
            let moved_at = if still {
                state->last_moved_at_nanos
            } else {
                motion.sample.event_time_nanos
            };
            let samples = with_sample(
                with_sample(state->Scrolling_samples, motion.sample),
                up.sample,
            );
            &&& next is Scrolling
            &&& next->last == motion.sample
            &&& next->Scrolling_samples == with_sample(state->Scrolling_samples, motion.sample)
            &&& next->last_moved_at_nanos == moved_at
            &&& up.sample.event_time_nanos - moved_at <= 100_000_000 ==> fling_of(next, up)
                == span_of(samples)
            &&& up.sample.event_time_nanos - moved_at > 100_000_000 ==> fling_of(next, up) is None
        }),
{
}

/// A finger that moves as it leaves a scroll always flings what the samples show.
pub proof fn a_finger_that_leaves_moving_flings(state: GestureState, up: MotionEvent)
    requires
        state is Scrolling,
        up.action == MotionAction::Up,
        !(up.delta.x.equals(Scalar { bits: 0 }) && up.delta.y.equals(Scalar { bits: 0 })),
    ensures
        fling_of(state, up) == span_of(with_sample(state->Scrolling_samples, up.sample)),
{
}

} // verus!
