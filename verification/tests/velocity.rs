use gpui_android::geometry::{Point, Scalar};
use gpui_android::velocity::{
    fling_scale, saturating_sub, TouchSample, VelocitySpan, VelocityTracker,
    FLING_MAXIMUM_SPEED_BITS,
};

fn scalar(value: f32) -> Scalar {
    Scalar { bits: value.to_bits() }
}

fn number(scalar: Scalar) -> f32 {
    f32::from_bits(scalar.bits)
}

fn sample(x: f32, y: f32, event_time_nanos: i64) -> TouchSample {
    TouchSample { position: Point { x: scalar(x), y: scalar(y) }, event_time_nanos }
}

fn velocity_of(span: VelocitySpan) -> (f32, f32) {
    let seconds = span.elapsed_nanos as f32 / 1_000_000_000.0;
    (
        (number(span.last.position.x) - number(span.first.position.x)) / seconds,
        (number(span.last.position.y) - number(span.first.position.y)) / seconds,
    )
}

fn fling_velocity(x: f32, y: f32) -> Option<(f32, f32)> {
    let speed = x.hypot(y);
    let ratio = f32::from_bits(FLING_MAXIMUM_SPEED_BITS) / speed;
    let scale = number(fling_scale(scalar(speed), scalar(ratio))?);
    Some((x * scale, y * scale))
}

fn times(tracker: &VelocityTracker) -> Vec<i64> {
    tracker.samples.iter().map(|sample| sample.event_time_nanos).collect()
}

#[test]
fn velocity_tracker_uses_android_event_timestamps() {
    let mut tracker = VelocityTracker::default();
    tracker.push(sample(0.0, 0.0, 1_000_000_000));
    tracker.push(sample(0.0, -100.0, 1_100_000_000));

    let velocity = velocity_of(tracker.velocity().unwrap());
    assert!(velocity.0.abs() < f32::EPSILON);
    assert!((velocity.1 + 1_000.0).abs() < 0.01);
}

#[test]
fn fling_velocity_rejects_taps_and_bounds_outliers() {
    assert!(fling_velocity(0.0, 20.0).is_none());
    let bounded = fling_velocity(0.0, 20_000.0).unwrap();
    assert!((bounded.1 - f32::from_bits(FLING_MAXIMUM_SPEED_BITS)).abs() < 0.01);
    assert_eq!(f32::from_bits(FLING_MAXIMUM_SPEED_BITS), 8_000.0);
}

#[test]
fn flings_begin_at_the_slowest_speed() {
    assert_eq!(fling_scale(scalar(50.0), scalar(160.0)), Some(scalar(1.0)));
    assert_eq!(fling_scale(scalar(49.999_996), scalar(160.0)), None);
    assert_eq!(fling_scale(scalar(16_000.0), scalar(0.5)), Some(scalar(0.5)));
    assert_eq!(fling_scale(scalar(f32::NAN), scalar(f32::NAN)), Some(scalar(1.0)));
}

#[test]
fn one_sample_shows_no_movement() {
    let mut tracker = VelocityTracker::default();
    assert_eq!(tracker.velocity(), None);
    tracker.push(sample(1.0, 1.0, 5));
    assert_eq!(tracker.velocity(), None);
    tracker.push(sample(2.0, 1.0, 6));
    let span = tracker.velocity().unwrap();
    assert_eq!(span.first, sample(1.0, 1.0, 5));
    assert_eq!(span.last, sample(2.0, 1.0, 6));
    assert_eq!(span.elapsed_nanos, 1);
}

#[test]
fn samples_out_of_date_are_dropped() {
    let mut tracker = VelocityTracker::default();
    tracker.push(sample(0.0, 0.0, 100));
    tracker.push(sample(9.0, 9.0, 99));
    assert_eq!(times(&tracker), vec![100]);
}

#[test]
fn samples_of_one_time_replace_each_other() {
    let mut tracker = VelocityTracker::default();
    tracker.push(sample(0.0, 0.0, 100));
    tracker.push(sample(3.0, 0.0, 200));
    tracker.push(sample(4.0, 0.0, 200));
    assert_eq!(times(&tracker), vec![100, 200]);
    assert_eq!(tracker.samples[1], sample(4.0, 0.0, 200));
}

#[test]
fn samples_leave_the_window_but_for_two() {
    let mut tracker = VelocityTracker::default();
    tracker.push(sample(0.0, 0.0, 0));
    tracker.push(sample(0.0, 0.0, 50_000_000));
    tracker.push(sample(0.0, 0.0, 100_000_000));
    assert_eq!(times(&tracker), vec![0, 50_000_000, 100_000_000]);
    tracker.push(sample(0.0, 0.0, 100_000_001));
    assert_eq!(times(&tracker), vec![50_000_000, 100_000_000, 100_000_001]);
    tracker.push(sample(0.0, 0.0, 900_000_000));
    assert_eq!(times(&tracker), vec![100_000_001, 900_000_000]);
}

#[test]
fn differences_stay_within_range() {
    assert_eq!(saturating_sub(i64::MIN, 1), i64::MIN);
    assert_eq!(saturating_sub(i64::MAX, -1), i64::MAX);
    assert_eq!(saturating_sub(5, 7), -2);
    let mut tracker = VelocityTracker::default();
    tracker.push(sample(0.0, 0.0, i64::MIN));
    tracker.push(sample(0.0, 0.0, i64::MAX));
    assert_eq!(tracker.velocity().unwrap().elapsed_nanos, i64::MAX);
}
