//! The parts of a window that system bars and the soft keyboard cover.

use crate::geometry::{rank_refines_value, Edges, Scalar, Size};
use vstd::prelude::*;

verus! {

/// The rectangle of a window, in device pixels, that nothing covers.
#[derive(Clone, Copy, Debug, PartialEq, Eq, Structural)]
pub struct ContentRect {
    pub left: i32,
    pub top: i32,
    pub right: i32,
    pub bottom: i32,
}

/// What is covered on each side, in logical pixels: by system bars for good, and by the
/// soft keyboard beyond that.
#[derive(Clone, Copy, Debug, PartialEq, Eq)]
pub struct WindowInsets {
    pub safe_area: Edges<Scalar>,
    pub ime: Edges<Scalar>,
}

impl WindowInsets {
    pub open spec fn spec_none() -> WindowInsets {
        WindowInsets {
            safe_area: Edges::<Scalar>::spec_zero(),
            ime: Edges::<Scalar>::spec_zero(),
        }
    }

    /// Nothing is covered.
    pub fn none() -> (insets: WindowInsets)
        ensures
            insets == WindowInsets::spec_none(),
    {
        WindowInsets { safe_area: Edges::<Scalar>::zero(), ime: Edges::<Scalar>::zero() }
    }

    pub open spec fn equals(self, other: WindowInsets) -> bool {
        self.safe_area.equals(other.safe_area) && self.ime.equals(other.ime)
    }

    /// Whether the same is covered on every side.
    pub fn eq_value(self, other: WindowInsets) -> (equal: bool)
        ensures
            equal == self.equals(other),
    {
        self.safe_area.eq_value(other.safe_area) && self.ime.eq_value(other.ime)
    }
}

/// `value`, or the nearest number from 0 to `limit`.
pub open spec fn clamped(value: int, limit: int) -> int {
    if value < 0 {
        0
    } else if value > limit {
        limit
    } else {
        value
    }
}

/// The extent of a window in one direction; one below 0 counts as 0.
pub open spec fn extent(length: i32) -> int {
    if length < 0 {
        0
    } else {
        length as int
    }
}

/// What lies outside of the content rectangle on each side of the window.
pub open spec fn spec_content_insets(physical: Size<i32>, rect: ContentRect) -> Edges<int> {
    let width = extent(physical.width);
    let height = extent(physical.height);
    Edges {
        top: clamped(rect.top as int, height),
        right: clamped(width - rect.right, width),
        bottom: clamped(height - rect.bottom, height),
        left: clamped(rect.left as int, width),
    }
}

fn clamp(value: i64, limit: i32) -> (result: i32)
    requires
        0 <= limit,
    ensures
        result == clamped(value as int, limit as int),
{
    if value < 0 {
        0
    } else if value > limit as i64 {
        limit
    } else {
        value as i32
    }
}

/// What lies outside of the content rectangle on each side of the window, in device
/// pixels.
pub fn content_insets(physical: Size<i32>, rect: ContentRect) -> (edges: Edges<i32>)
    ensures
        edges.top == spec_content_insets(physical, rect).top,
        edges.right == spec_content_insets(physical, rect).right,
        edges.bottom == spec_content_insets(physical, rect).bottom,
        edges.left == spec_content_insets(physical, rect).left,
{
    let width: i32 = if physical.width < 0 {
        0
    } else {
        physical.width
    };
    let height: i32 = if physical.height < 0 {
        0
    } else {
        physical.height
    };
    Edges {
        top: clamp(rect.top as i64, height),
        right: clamp(width as i64 - rect.right as i64, width),
        bottom: clamp(height as i64 - rect.bottom as i64, height),
        left: clamp(rect.left as i64, width),
    }
}

/// The edges that count as system bars, given what is covered now and what counted so
/// far. The first edges count, and so do those after a reset. Later ones count once they
/// cover no more of the bottom, since the keyboard is gone then; while they cover more
/// of it, the ones so far are kept.
pub open spec fn baseline(
    stable: Option<Edges<Scalar>>,
    covered: Edges<Scalar>,
    reset: bool,
) -> Edges<Scalar> {
    match stable {
        Some(edges) => {
            if reset || covered.bottom.rank() <= edges.bottom.rank() {
                covered
            } else {
                edges
            }
        },
        None => covered,
    }
}

/// The edges that count as system bars from now on.
pub fn choose_baseline(
    stable: Option<Edges<Scalar>>,
    covered: Edges<Scalar>,
    reset: bool,
) -> (edges: Edges<Scalar>)
    ensures
        edges == baseline(stable, covered, reset),
{
    match stable {
        Some(edges) => {
            if reset || covered.bottom.total_le(edges.bottom) {
                covered
            } else {
                edges
            }
        },
        None => covered,
    }
}

/// Insets stay within the window, and a content rectangle within it is what they leave.
pub proof fn content_insets_leave_the_content(physical: Size<i32>, rect: ContentRect)
    ensures
        ({
            let edges = spec_content_insets(physical, rect);
            let width = extent(physical.width);
            let height = extent(physical.height);
            &&& 0 <= edges.left <= width && 0 <= edges.right <= width
            &&& 0 <= edges.top <= height && 0 <= edges.bottom <= height
            &&& 0 <= rect.left <= rect.right <= width ==> width - edges.left - edges.right
                == rect.right - rect.left
            &&& 0 <= rect.top <= rect.bottom <= height ==> height - edges.top - edges.bottom
                == rect.bottom - rect.top
        }),
{
}

/// The system bars are learnt from the first edges, and again after a reset, and they
/// outlast a keyboard: while more of the bottom is covered they stay as they were, and
/// what is covered when the keyboard is gone is learnt anew.
pub proof fn a_keyboard_leaves_the_baseline(
    stable: Edges<Scalar>,
    covered: Edges<Scalar>,
    after: Edges<Scalar>,
)
    ensures
        baseline(None, covered, false) == covered,
        baseline(Some(stable), covered, true) == covered,
        stable.bottom.rank() < covered.bottom.rank() ==> baseline(Some(stable), covered, false)
            == stable,
        stable.bottom.rank() < covered.bottom.rank() && after.bottom.rank()
            <= stable.bottom.rank() ==> baseline(
            Some(baseline(Some(stable), covered, false)),
            after,
            false,
        ) == after,
{
}

/// Each inset is the distance on its own side. On the left and at the top it is where the
/// content begins, and on the right and at the bottom what is left of the window behind it.
/// A content that begins or ends outside of the window counts as doing so at its edge, and a
/// window without an extent has no insets.
pub proof fn each_inset_is_on_its_own_side(physical: Size<i32>, rect: ContentRect)
    ensures
        ({
            let edges = spec_content_insets(physical, rect);
            let width = physical.width as int;
            let height = physical.height as int;
            &&& width >= 0 ==> {
                &&& 0 <= rect.left <= width ==> edges.left == rect.left
                &&& rect.left < 0 ==> edges.left == 0
                &&& rect.left > width ==> edges.left == width
                &&& 0 <= rect.right <= width ==> edges.right == width - rect.right
                &&& rect.right < 0 ==> edges.right == width
                &&& rect.right > width ==> edges.right == 0
            }
            &&& height >= 0 ==> {
                &&& 0 <= rect.top <= height ==> edges.top == rect.top
                &&& rect.top < 0 ==> edges.top == 0
                &&& rect.top > height ==> edges.top == height
                &&& 0 <= rect.bottom <= height ==> edges.bottom == height - rect.bottom
                &&& rect.bottom < 0 ==> edges.bottom == height
                &&& rect.bottom > height ==> edges.bottom == 0
            }
            &&& width < 0 ==> edges.left == 0 && edges.right == 0
            &&& height < 0 ==> edges.top == 0 && edges.bottom == 0
        }),
{
}

/// What is covered becomes the system bars where less of the bottom is covered than they
/// cover, or the same, and the system bars stay where more is. A reset takes what is
/// covered, and so does a window that has no system bars yet.
pub proof fn the_baseline_goes_by_the_bottom(
    stable: Edges<Scalar>,
    covered: Edges<Scalar>,
    reset: bool,
)
    ensures
        baseline(None, covered, reset) == covered,
        baseline(Some(stable), covered, true) == covered,
        covered.bottom.below(stable.bottom) ==> baseline(Some(stable), covered, reset) == covered,
        covered.bottom == stable.bottom ==> baseline(Some(stable), covered, reset) == covered,
        stable.bottom.below(covered.bottom) ==> baseline(Some(stable), covered, false) == stable,
        baseline(Some(stable), covered, false) == stable || baseline(Some(stable), covered, false)
            == covered,
        baseline(Some(stable), covered, false).bottom.rank() <= stable.bottom.rank(),
        baseline(Some(stable), covered, false).bottom.rank() <= covered.bottom.rank(),
{
    if !stable.bottom.spec_is_nan() && !covered.bottom.spec_is_nan() {
        rank_refines_value(covered.bottom, stable.bottom);
        rank_refines_value(stable.bottom, covered.bottom);
    }
}

/// Insets are the same where the safe areas are and the keyboards are.
pub proof fn sameness_of_insets(a: WindowInsets, b: WindowInsets)
    ensures
        a.equals(b) <==> a.safe_area.equals(b.safe_area) && a.ime.equals(b.ime),
        WindowInsets::spec_none().safe_area == Edges::<Scalar>::spec_zero(),
        WindowInsets::spec_none().ime == Edges::<Scalar>::spec_zero(),
{
}

} // verus!
