//! How fast a finger moves, and when that is fast enough for a fling.

use crate::geometry::{whole_number_value, Point, Scalar, ONE_BITS};
use std::collections::VecDeque;
use vstd::arithmetic::power2::{lemma2_to64, pow2};
use vstd::prelude::*;

verus! {

/// How far back the samples of a velocity reach.
pub const VELOCITY_WINDOW_NANOS: i64 = 100_000_000;

/// 50 logical pixels per second: the slowest fling.
pub const FLING_MINIMUM_SPEED_BITS: u32 = 0x4248_0000;

/// 8000 logical pixels per second: the fastest fling.
pub const FLING_MAXIMUM_SPEED_BITS: u32 = 0x45fa_0000;

/// Where a finger was, and when according to the event's own timestamp.
#[derive(Clone, Copy, Debug, PartialEq, Eq, Structural)]
pub struct TouchSample {
    pub position: Point,
    pub event_time_nanos: i64,
}

/// `a - b`, held within the range of an `i64`.
pub open spec fn spec_saturating_sub(a: int, b: int) -> int {
    if a - b < i64::MIN {
        i64::MIN as int
    } else if a - b > i64::MAX {
        i64::MAX as int
    } else {
        a - b
    }
}

pub fn saturating_sub(a: i64, b: i64) -> (difference: i64)
    ensures
        difference == spec_saturating_sub(a as int, b as int),
{
    let exact: i128 = a as i128 - b as i128;
    if exact < i64::MIN as i128 {
        i64::MIN
    } else if exact > i64::MAX as i128 {
        i64::MAX
    } else {
        exact as i64
    }
}

/// The first and the last sample of a movement, and the time between them.
#[derive(Clone, Copy, Debug, PartialEq, Eq)]
pub struct VelocitySpan {
    pub first: TouchSample,
    pub last: TouchSample,
    pub elapsed_nanos: i64,
}

/// The recent samples of one touch, oldest first.
#[derive(Debug)]
pub struct VelocityTracker {
    pub samples: VecDeque<TouchSample>,
}

/// The samples without those before `cutoff` at the front, as long as more than two
/// are left.
pub open spec fn trimmed(samples: Seq<TouchSample>, cutoff: int) -> Seq<TouchSample>
    decreases samples.len(),
{
    if samples.len() > 2 && samples[0].event_time_nanos < cutoff {
        trimmed(samples.drop_first(), cutoff)
    } else {
        samples
    }
}

/// What the samples are after one more: nothing changes where it comes before the
/// last one, it replaces the last one of the same time, and samples older than the
/// window leave.
pub open spec fn with_sample(samples: Seq<TouchSample>, sample: TouchSample) -> Seq<TouchSample> {
    let cutoff = spec_saturating_sub(
        sample.event_time_nanos as int,
        VELOCITY_WINDOW_NANOS as int,
    );
    if samples.len() > 0 && sample.event_time_nanos < samples.last().event_time_nanos {
        samples
    } else if samples.len() > 0 && sample.event_time_nanos == samples.last().event_time_nanos {
        trimmed(samples.drop_last().push(sample), cutoff)
    } else {
        trimmed(samples.push(sample), cutoff)
    }
}

/// Each sample comes after the one before it.
pub open spec fn in_order(samples: Seq<TouchSample>) -> bool {
    forall|i: int, j: int|
        0 <= i < j < samples.len() ==> samples[i].event_time_nanos < samples[j].event_time_nanos
}

/// The movement that the samples show, if any time passes in it.
pub open spec fn span_of(samples: Seq<TouchSample>) -> Option<VelocitySpan> {
    if samples.len() == 0 {
        None
    } else {
        let elapsed = spec_saturating_sub(
            samples.last().event_time_nanos as int,
            samples.first().event_time_nanos as int,
        );
        if elapsed <= 0 {
            None
        } else {
            Some(
                VelocitySpan {
                    first: samples.first(),
                    last: samples.last(),
                    elapsed_nanos: elapsed as i64,
                },
            )
        }
    }
}

impl View for VelocityTracker {
    type V = Seq<TouchSample>;

    open spec fn view(&self) -> Seq<TouchSample> {
        self.samples@
    }
}

impl Default for VelocityTracker {
    fn default() -> (tracker: VelocityTracker)
        ensures
            tracker@ == Seq::<TouchSample>::empty(),
            in_order(tracker@),
    {
        VelocityTracker { samples: VecDeque::new() }
    }
}

impl VelocityTracker {
    /// Takes up one more sample.
    pub fn push(&mut self, sample: TouchSample)
        ensures
            final(self)@ == with_sample(old(self)@, sample),
            in_order(old(self)@) ==> in_order(final(self)@),
    {
        proof {
            if in_order(self@) {
                samples_stay_in_order(self@, sample);
            }
        }
        let count: usize = self.samples.len();
        if count > 0 {
            let last = self.samples[count - 1];
            if sample.event_time_nanos < last.event_time_nanos {
                return ;
            }
            if sample.event_time_nanos == last.event_time_nanos {
                let _ = self.samples.pop_back();
                assert(self@ =~= old(self)@.drop_last());
            }
        }
        self.samples.push_back(sample);

        let cutoff: i64 = saturating_sub(sample.event_time_nanos, VELOCITY_WINDOW_NANOS);
        let ghost all = self@;
        while self.samples.len() > 2 && self.samples[0].event_time_nanos < cutoff
            invariant
                trimmed(self@, cutoff as int) == trimmed(all, cutoff as int),
            decreases self.samples.len(),
        {
            let ghost before = self@;
            let _ = self.samples.pop_front();
            assert(self@ =~= before.drop_first());
        }
    }

    /// The movement that the samples show: from the first to the last of them, or
    /// nothing where no time passes between the two. The distance over the time is
    /// the velocity.
    pub fn velocity(&self) -> (span: Option<VelocitySpan>)
        ensures
            span == span_of(self@),
    {
        let count: usize = self.samples.len();
        if count == 0 {
            return None;
        }
        let first = self.samples[0];
        let last = self.samples[count - 1];
        let elapsed_nanos: i64 = saturating_sub(last.event_time_nanos, first.event_time_nanos);
        if elapsed_nanos <= 0 {
            return None;
        }
        Some(VelocitySpan { first, last, elapsed_nanos })
    }
}

/// Trimming drops a run of samples from the front, each of them before the cutoff, and
/// stops at the first one that is not or when two are left.
pub proof fn trimming_drops_old_samples(samples: Seq<TouchSample>, cutoff: int) -> (dropped: int)
    ensures
        0 <= dropped <= samples.len(),
        trimmed(samples, cutoff) == samples.skip(dropped),
        forall|i: int| 0 <= i < dropped ==> samples[i].event_time_nanos < cutoff,
        dropped > 0 ==> samples.len() - dropped >= 2,
        samples.len() - dropped <= 2 || samples[dropped].event_time_nanos >= cutoff,
    decreases samples.len(),
{
    if samples.len() > 2 && samples[0].event_time_nanos < cutoff {
        let rest = samples.drop_first();
        let d = trimming_drops_old_samples(rest, cutoff);
        assert(rest.skip(d) =~= samples.skip(d + 1));
        assert forall|i: int| 0 <= i < d + 1 implies samples[i].event_time_nanos < cutoff by {
            if i > 0 {
                assert(rest[i - 1] == samples[i]);
            }
        }
        d + 1
    } else {
        assert(samples.skip(0) =~= samples);
        0
    }
}

/// The samples of a tracker stay in the order of their times, whatever is pushed.
pub proof fn samples_stay_in_order(samples: Seq<TouchSample>, sample: TouchSample)
    requires
        in_order(samples),
    ensures
        in_order(with_sample(samples, sample)),
{
    let cutoff = spec_saturating_sub(
        sample.event_time_nanos as int,
        VELOCITY_WINDOW_NANOS as int,
    );
    let _ = trimming_drops_old_samples(samples.drop_last().push(sample), cutoff);
    let _ = trimming_drops_old_samples(samples.push(sample), cutoff);
}

/// A sample that is not out of date ends up last, and what is kept beside it lies
/// within the window, but for the one sample before it that is always kept.
pub proof fn samples_lie_within_the_window(samples: Seq<TouchSample>, sample: TouchSample)
    requires
        in_order(samples),
        samples.len() > 0 ==> samples.last().event_time_nanos <= sample.event_time_nanos,
    ensures
        with_sample(samples, sample).len() > 0,
        with_sample(samples, sample).last() == sample,
        with_sample(samples, sample).len() > 2 ==> forall|i: int|
            0 <= i < with_sample(samples, sample).len() ==> sample.event_time_nanos
                - (#[trigger] with_sample(samples, sample)[i]).event_time_nanos
                <= VELOCITY_WINDOW_NANOS,
        forall|i: int|
            0 <= i < samples.len() && samples[i].event_time_nanos != sample.event_time_nanos
                && sample.event_time_nanos - samples[i].event_time_nanos <= VELOCITY_WINDOW_NANOS
                ==> with_sample(samples, sample).contains(#[trigger] samples[i]),
{
    let cutoff = spec_saturating_sub(
        sample.event_time_nanos as int,
        VELOCITY_WINDOW_NANOS as int,
    );
    let all = if samples.len() > 0 && samples.last().event_time_nanos == sample.event_time_nanos {
        samples.drop_last().push(sample)
    } else {
        samples.push(sample)
    };
    let dropped = trimming_drops_old_samples(all, cutoff);
    let kept = with_sample(samples, sample);
    assert(kept == all.skip(dropped));
    samples_stay_in_order(samples, sample);
    assert(kept.last() == all.last());
    assert forall|i: int| kept.len() > 2 && 0 <= i < kept.len() implies sample.event_time_nanos - (
    #[trigger] kept[i]).event_time_nanos <= VELOCITY_WINDOW_NANOS by {
        assert(kept[0] == all[dropped]);
        assert(kept[0].event_time_nanos <= kept[i].event_time_nanos);
    }
    assert forall|i: int|
        0 <= i < samples.len() && samples[i].event_time_nanos != sample.event_time_nanos
            && sample.event_time_nanos - samples[i].event_time_nanos
            <= VELOCITY_WINDOW_NANOS implies kept.contains(#[trigger] samples[i]) by {
        assert(all[i] == samples[i]);
        assert(i >= dropped);
        assert(kept[i - dropped] == samples[i]);
    }
}

/// A tracker shows a movement as soon as it holds two samples, and its time runs from
/// the first to the last of them.
pub proof fn two_samples_show_a_movement(samples: Seq<TouchSample>)
    requires
        in_order(samples),
    ensures
        span_of(samples) is Some <==> samples.len() >= 2,
        samples.len() >= 2 ==> span_of(samples)->0.elapsed_nanos == spec_saturating_sub(
            samples.last().event_time_nanos as int,
            samples.first().event_time_nanos as int,
        ) && span_of(samples)->0.elapsed_nanos > 0,
{
}

/// The slowest speed that counts as a fling.
pub open spec fn fling_minimum_speed() -> Scalar {
    Scalar { bits: FLING_MINIMUM_SPEED_BITS }
}

/// The limits of a fling are 50 and 8000 logical pixels per second.
pub proof fn fling_limits()
    ensures
        fling_minimum_speed().value() == 50 * pow2(149),
        (Scalar { bits: FLING_MAXIMUM_SPEED_BITS }).value() == 8000 * pow2(149),
{
    lemma2_to64();
    whole_number_value(fling_minimum_speed(), 5, 50);
    whole_number_value(Scalar { bits: FLING_MAXIMUM_SPEED_BITS }, 12, 8000);
}

/// The factor that a fling of the given speed is scaled by: none where it is too slow
/// to be a fling, and 1 where it is not too fast. `ratio` is the largest speed divided
/// by `speed`.
pub fn fling_scale(speed: Scalar, ratio: Scalar) -> (scale: Option<Scalar>)
    ensures
        scale == if speed.below(fling_minimum_speed()) {
            None::<Scalar>
        } else {
            Some(ratio.capped_at(Scalar { bits: ONE_BITS }))
        },
{
    if speed.lt(Scalar { bits: FLING_MINIMUM_SPEED_BITS }) {
        None
    } else {
        Some(ratio.cap(Scalar { bits: ONE_BITS }))
    }
}

/// Differences are exact where they fit, and stop at the end of the range that they would
/// run past.
pub proof fn differences_stop_at_the_ends(a: i64, b: i64)
    ensures
        i64::MIN <= a - b <= i64::MAX ==> spec_saturating_sub(a as int, b as int) == a - b,
        a - b > i64::MAX ==> spec_saturating_sub(a as int, b as int) == 0x7fff_ffff_ffff_ffff,
        a - b < i64::MIN ==> spec_saturating_sub(a as int, b as int) == -0x8000_0000_0000_0000,
{
}

/// What is kept when a sample comes that is later than all the others: the sample behind a
/// run of those at the end. Left out are samples at the front that are more than 100
/// milliseconds older, all but the last of the others if need be, and no more.
pub proof fn a_later_sample_joins_the_recent_ones(
    samples: Seq<TouchSample>,
    sample: TouchSample,
) -> (left_out: int)
    requires
        samples.len() > 0 ==> samples.last().event_time_nanos < sample.event_time_nanos,
    ensures
        0 <= left_out <= samples.len(),
        with_sample(samples, sample) == samples.skip(left_out).push(sample),
        forall|i: int|
            0 <= i < left_out ==> sample.event_time_nanos - (
            #[trigger] samples[i]).event_time_nanos > 100_000_000,
        samples.len() > 0 ==> left_out < samples.len(),
        left_out + 1 < samples.len() ==> sample.event_time_nanos
            - samples[left_out].event_time_nanos <= 100_000_000,
{
    let cutoff = spec_saturating_sub(
        sample.event_time_nanos as int,
        VELOCITY_WINDOW_NANOS as int,
    );
    let all = samples.push(sample);
    let d = trimming_drops_old_samples(all, cutoff);
    if d > 0 {
        assert(all.len() - d >= 2);
    }
    assert(all.skip(d) =~= samples.skip(d).push(sample));
    assert forall|i: int| 0 <= i < d implies sample.event_time_nanos - (
    #[trigger] samples[i]).event_time_nanos > 100_000_000 by {
        assert(all[i] == samples[i]);
    }
    if d + 1 < samples.len() {
        assert(all[d] == samples[d]);
    }
    d
}

/// A sample of the same time takes the place of the last one: it is as if that one had never
/// come. A sample that is older than the last one changes nothing.
pub proof fn a_sample_of_the_same_time_takes_its_place(
    samples: Seq<TouchSample>,
    last: TouchSample,
    sample: TouchSample,
)
    requires
        samples.len() > 0 ==> samples.last().event_time_nanos < last.event_time_nanos,
    ensures
        sample.event_time_nanos == last.event_time_nanos ==> with_sample(
            samples.push(last),
            sample,
        ) == with_sample(samples, sample),
        sample.event_time_nanos < last.event_time_nanos ==> with_sample(samples.push(last), sample)
            == samples.push(last),
{
    assert(samples.push(last).drop_last() =~= samples);
}

/// A movement runs from the first sample to the last, and its time is that between the two.
pub proof fn a_movement_runs_from_first_to_last(samples: Seq<TouchSample>)
    ensures
        span_of(samples) is Some ==> {
            &&& samples.len() > 0
            &&& span_of(samples)->0.first == samples[0]
            &&& span_of(samples)->0.last == samples[samples.len() - 1]
            &&& span_of(samples)->0.elapsed_nanos == spec_saturating_sub(
                samples[samples.len() - 1].event_time_nanos as int,
                samples[0].event_time_nanos as int,
            )
        },
        span_of(samples) is Some <==> samples.len() > 0 && samples[0].event_time_nanos
            < samples[samples.len() - 1].event_time_nanos,
{
}

} // verus!
