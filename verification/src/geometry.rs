//! Numbers, points, sizes and edges.

use vstd::arithmetic::power2::pow2;
use vstd::prelude::*;

verus! {

/// The number of magnitudes that share one binary exponent.
pub const MAGNITUDES_PER_EXPONENT: u32 = 0x0080_0000;

/// The bit that holds the sign.
pub const SIGN_BIT: u32 = 0x8000_0000;

/// The magnitude of the infinities; every magnitude above it is a NaN.
pub const INFINITY_MAGNITUDE: u32 = 0x7f80_0000;

/// The bit pattern of 0.
pub const ZERO_BITS: u32 = 0x0000_0000;

/// The bit pattern of 1.
pub const ONE_BITS: u32 = 0x3f80_0000;

/// The bit pattern of 2.
pub const TWO_BITS: u32 = 0x4000_0000;

/// A single-precision binary floating-point number, held as its bit pattern.
///
/// `==` compares bit patterns. Numbers are compared with the methods below.
#[derive(Clone, Copy, Debug, PartialEq, Eq, Structural)]
pub struct Scalar {
    pub bits: u32,
}

/// The size of a number in units of 2^-149, the smallest positive number, from the
/// bit pattern without its sign. The infinities come out above every finite number.
pub open spec fn magnitude_units(magnitude: int) -> int {
    if magnitude < MAGNITUDES_PER_EXPONENT {
        magnitude
    } else {
        (MAGNITUDES_PER_EXPONENT + magnitude % (MAGNITUDES_PER_EXPONENT as int)) * pow2(
            (magnitude / (MAGNITUDES_PER_EXPONENT as int) - 1) as nat,
        )
    }
}

proof fn lemma_magnitude_units_step(m: int)
    requires
        0 <= m,
    ensures
        magnitude_units(m) < magnitude_units(m + 1),
{
    let n: int = MAGNITUDES_PER_EXPONENT as int;
    if m + 1 < n {
    } else if m + 1 == n {
        vstd::arithmetic::power2::lemma2_to64();
        assert((m + 1) % n == 0 && (m + 1) / n == 1);
        assert(magnitude_units(m + 1) == n * pow2(0));
    } else {
        let q: int = m / n;
        let r: int = m % n;
        let p: int = pow2((q - 1) as nat) as int;
        vstd::arithmetic::power2::lemma_pow2_pos((q - 1) as nat);
        if r + 1 < n {
            assert((m + 1) / n == q && (m + 1) % n == r + 1);
            assert((n + r + 1) * p > (n + r) * p) by (nonlinear_arith)
                requires
                    p > 0,
            ;
        } else {
            assert((m + 1) / n == q + 1 && (m + 1) % n == 0);
            vstd::arithmetic::power2::lemma_pow2_unfold(q as nat);
            assert(pow2(q as nat) == 2 * p);
            assert(n * (2 * p) > (n + r) * p) by (nonlinear_arith)
                requires
                    p > 0,
                    r < n,
            ;
        }
    }
}

proof fn lemma_magnitude_units_increase(a: int, b: int)
    requires
        0 <= a < b,
    ensures
        0 <= magnitude_units(a) < magnitude_units(b),
    decreases b - a,
{
    if a > 0 {
        lemma_magnitude_units_nonnegative(a);
    }
    lemma_magnitude_units_step(b - 1);
    if a < b - 1 {
        lemma_magnitude_units_increase(a, b - 1);
    }
}

proof fn lemma_magnitude_units_nonnegative(a: int)
    requires
        0 <= a,
    ensures
        0 <= magnitude_units(a),
    decreases a,
{
    if a > 0 {
        lemma_magnitude_units_nonnegative(a - 1);
        lemma_magnitude_units_step(a - 1);
    }
}

impl Scalar {
    /// Whether the sign bit is set.
    pub open spec fn signed(self) -> bool {
        self.bits >= SIGN_BIT
    }

    /// The bit pattern without its sign.
    pub open spec fn magnitude(self) -> int {
        if self.signed() {
            self.bits - SIGN_BIT
        } else {
            self.bits as int
        }
    }

    pub open spec fn spec_is_nan(self) -> bool {
        self.magnitude() > INFINITY_MAGNITUDE
    }

    /// The number, in units of 2^-149. Both zeros are 0, and the infinities lie
    /// beyond every finite number. It means nothing for a NaN.
    pub open spec fn value(self) -> int {
        if self.signed() {
            -magnitude_units(self.magnitude())
        } else {
            magnitude_units(self.magnitude())
        }
    }

    /// The numeric `<`: false as soon as a NaN takes part.
    pub open spec fn below(self, other: Scalar) -> bool {
        !self.spec_is_nan() && !other.spec_is_nan() && self.value() < other.value()
    }

    /// The numeric `==`: the zeros are equal, and a NaN equals nothing.
    pub open spec fn equals(self, other: Scalar) -> bool {
        !self.spec_is_nan() && !other.spec_is_nan() && self.value() == other.value()
    }

    /// The place of a number in the total order of all bit patterns: negative NaNs,
    /// negative numbers, -0, +0, positive numbers, positive NaNs.
    pub open spec fn rank(self) -> int {
        if self.signed() {
            -1 - self.magnitude()
        } else {
            self.magnitude()
        }
    }

    /// A number compared numerically, without its units.
    proof fn lemma_value_order(self, other: Scalar)
        ensures
            self.value() < other.value() <==> self.signed_magnitude()
                < other.signed_magnitude(),
            self.value() == other.value() <==> self.signed_magnitude()
                == other.signed_magnitude(),
    {
        let a = self.magnitude();
        let b = other.magnitude();
        lemma_magnitude_units_nonnegative(a);
        lemma_magnitude_units_nonnegative(b);
        if a > 0 {
            lemma_magnitude_units_increase(0, a);
        }
        if b > 0 {
            lemma_magnitude_units_increase(0, b);
        }
        if a < b {
            lemma_magnitude_units_increase(a, b);
        }
        if b < a {
            lemma_magnitude_units_increase(b, a);
        }
    }

    spec fn signed_magnitude(self) -> int {
        if self.signed() {
            -self.magnitude()
        } else {
            self.magnitude()
        }
    }

    fn key(self) -> (key: i64)
        ensures
            key == self.signed_magnitude(),
    {
        if self.bits >= SIGN_BIT {
            -((self.bits - SIGN_BIT) as i64)
        } else {
            self.bits as i64
        }
    }

    pub fn is_nan(self) -> (nan: bool)
        ensures
            nan == self.spec_is_nan(),
    {
        if self.bits >= SIGN_BIT {
            self.bits - SIGN_BIT > INFINITY_MAGNITUDE
        } else {
            self.bits > INFINITY_MAGNITUDE
        }
    }

    /// `self < other` between numbers.
    pub fn lt(self, other: Scalar) -> (less: bool)
        ensures
            less == self.below(other),
    {
        proof {
            self.lemma_value_order(other);
        }
        !self.is_nan() && !other.is_nan() && self.key() < other.key()
    }

    /// `self == other` between numbers.
    pub fn eq_value(self, other: Scalar) -> (equal: bool)
        ensures
            equal == self.equals(other),
    {
        proof {
            self.lemma_value_order(other);
        }
        !self.is_nan() && !other.is_nan() && self.key() == other.key()
    }

    /// `self <= other` in the total order.
    pub fn total_le(self, other: Scalar) -> (less_or_equal: bool)
        ensures
            less_or_equal == (self.rank() <= other.rank()),
    {
        self.total_key() <= other.total_key()
    }

    fn total_key(self) -> (key: i64)
        ensures
            key == self.rank(),
    {
        if self.bits >= SIGN_BIT {
            -1 - ((self.bits - SIGN_BIT) as i64)
        } else {
            self.bits as i64
        }
    }

    /// The larger of two numbers in the total order.
    pub open spec fn spec_total_max(self, other: Scalar) -> Scalar {
        if self.rank() <= other.rank() {
            other
        } else {
            self
        }
    }

    pub fn total_max(self, other: Scalar) -> (larger: Scalar)
        ensures
            larger == self.spec_total_max(other),
    {
        if self.total_le(other) {
            other
        } else {
            self
        }
    }

    /// The number, unless it is above `limit` or no number at all: then `limit`.
    pub open spec fn capped_at(self, limit: Scalar) -> Scalar {
        if self.spec_is_nan() || limit.below(self) {
            limit
        } else {
            self
        }
    }

    pub fn cap(self, limit: Scalar) -> (capped: Scalar)
        ensures
            capped == self.capped_at(limit),
    {
        if self.is_nan() || limit.lt(self) {
            limit
        } else {
            self
        }
    }
}

/// The number 0, without a sign.
pub open spec fn zero() -> Scalar {
    Scalar { bits: ZERO_BITS }
}

/// A position, or a distance in both directions, in logical pixels.
#[derive(Clone, Copy, Debug, PartialEq, Eq, Structural)]
pub struct Point {
    pub x: Scalar,
    pub y: Scalar,
}

impl Point {
    pub open spec fn spec_origin() -> Point {
        Point { x: zero(), y: zero() }
    }

    /// The point (0, 0).
    pub fn origin() -> (point: Point)
        ensures
            point == Point::spec_origin(),
    {
        Point { x: Scalar { bits: ZERO_BITS }, y: Scalar { bits: ZERO_BITS } }
    }

    /// Whether either coordinate is something other than 0.
    pub open spec fn spec_is_nonzero(self) -> bool {
        !self.x.equals(zero()) || !self.y.equals(zero())
    }

    pub fn is_nonzero(self) -> (nonzero: bool)
        ensures
            nonzero == self.spec_is_nonzero(),
    {
        !self.x.eq_value(Scalar { bits: ZERO_BITS }) || !self.y.eq_value(
            Scalar { bits: ZERO_BITS },
        )
    }
}

/// A width and a height.
#[derive(Clone, Copy, Debug, PartialEq, Eq)]
pub struct Size<T> {
    pub width: T,
    pub height: T,
}

impl Size<Scalar> {
    pub open spec fn equals(self, other: Size<Scalar>) -> bool {
        self.width.equals(other.width) && self.height.equals(other.height)
    }

    /// Whether both sizes have the same width and the same height.
    pub fn eq_value(self, other: Size<Scalar>) -> (equal: bool)
        ensures
            equal == self.equals(other),
    {
        self.width.eq_value(other.width) && self.height.eq_value(other.height)
    }
}

/// A rectangle in logical pixels.
#[derive(Clone, Copy, Debug, PartialEq, Eq)]
pub struct Bounds {
    pub origin: Point,
    pub size: Size<Scalar>,
}

/// One length for each side of a rectangle.
#[derive(Clone, Copy, Debug, PartialEq, Eq)]
pub struct Edges<T> {
    pub top: T,
    pub right: T,
    pub bottom: T,
    pub left: T,
}

impl Edges<Scalar> {
    pub open spec fn spec_zero() -> Edges<Scalar> {
        Edges { top: zero(), right: zero(), bottom: zero(), left: zero() }
    }

    /// Edges of length 0.
    pub fn zero() -> (edges: Edges<Scalar>)
        ensures
            edges == Edges::<Scalar>::spec_zero(),
    {
        let zero = Scalar { bits: ZERO_BITS };
        Edges { top: zero, right: zero, bottom: zero, left: zero }
    }

    pub open spec fn equals(self, other: Edges<Scalar>) -> bool {
        &&& self.top.equals(other.top)
        &&& self.right.equals(other.right)
        &&& self.bottom.equals(other.bottom)
        &&& self.left.equals(other.left)
    }

    /// Whether all four sides have the same length.
    pub fn eq_value(self, other: Edges<Scalar>) -> (equal: bool)
        ensures
            equal == self.equals(other),
    {
        self.top.eq_value(other.top) && self.right.eq_value(other.right) && self.bottom.eq_value(
            other.bottom,
        ) && self.left.eq_value(other.left)
    }

    /// Each side, or 0 where it is below 0.
    pub open spec fn spec_positive_part(self) -> Edges<Scalar> {
        Edges {
            top: self.top.spec_total_max(zero()),
            right: self.right.spec_total_max(zero()),
            bottom: self.bottom.spec_total_max(zero()),
            left: self.left.spec_total_max(zero()),
        }
    }

    pub fn positive_part(self) -> (edges: Edges<Scalar>)
        ensures
            edges == self.spec_positive_part(),
    {
        let zero = Scalar { bits: ZERO_BITS };
        Edges {
            top: self.top.total_max(zero),
            right: self.right.total_max(zero),
            bottom: self.bottom.total_max(zero),
            left: self.left.total_max(zero),
        }
    }
}

/// Among numbers the total order refines `<`: what is smaller ranks lower, and what
/// is equal ranks alike but for the two zeros.
pub proof fn rank_refines_value(a: Scalar, b: Scalar)
    requires
        !a.spec_is_nan(),
        !b.spec_is_nan(),
    ensures
        a.below(b) ==> a.rank() < b.rank(),
        a.equals(b) ==> a == b || (a.value() == 0 && b.value() == 0),
        a.rank() < b.rank() ==> a.below(b) || a.equals(b),
{
    a.lemma_value_order(b);
    if a.magnitude() > 0 {
        lemma_magnitude_units_increase(0, a.magnitude());
    }
    if b.magnitude() > 0 {
        lemma_magnitude_units_increase(0, b.magnitude());
    }
}

/// The larger of a number and 0 is the number where that is above 0, and else 0.
pub proof fn positive_part_value(a: Scalar)
    requires
        !a.spec_is_nan(),
    ensures
        !a.spec_total_max(zero()).spec_is_nan(),
        a.value() > 0 ==> a.spec_total_max(zero()) == a,
        a.value() <= 0 ==> a.spec_total_max(zero()) == zero(),
        zero().value() == 0,
{
    rank_refines_value(a, zero());
    rank_refines_value(zero(), a);
    if a.magnitude() > 0 {
        lemma_magnitude_units_increase(0, a.magnitude());
    }
}

/// `<` is a strict order on numbers, and no two of them are incomparable without
/// being equal.
pub proof fn below_is_an_order(a: Scalar, b: Scalar, c: Scalar)
    ensures
        !a.below(a),
        a.below(b) && b.below(c) ==> a.below(c),
        !a.spec_is_nan() && !b.spec_is_nan() ==> a.below(b) || b.below(a) || a.equals(b),
{
}

/// The bit pattern of a whole number below 2^24: `exponent` is the place of its
/// leading bit, and `whole` the number.
pub proof fn whole_number_value(scalar: Scalar, exponent: nat, whole: int)
    requires
        exponent <= 23,
        pow2(exponent) <= whole < pow2(exponent + 1),
        scalar.bits == MAGNITUDES_PER_EXPONENT * (127 + exponent) + (whole - pow2(exponent))
            * pow2((23 - exponent) as nat),
    ensures
        !scalar.spec_is_nan(),
        scalar.value() == whole * pow2(149),
{
    let n: int = MAGNITUDES_PER_EXPONENT as int;
    let lead: int = pow2(exponent) as int;
    let shift: int = pow2((23 - exponent) as nat) as int;
    let rest: int = whole - lead;
    let fraction: int = rest * shift;
    vstd::arithmetic::power2::lemma_pow2_pos((23 - exponent) as nat);
    vstd::arithmetic::power2::lemma_pow2_unfold(exponent + 1);
    vstd::arithmetic::power2::lemma_pow2_adds(exponent, (23 - exponent) as nat);
    vstd::arithmetic::power2::lemma_pow2_adds((23 - exponent) as nat, 126 + exponent);
    assert(pow2(23) == n) by {
        vstd::arithmetic::power2::lemma2_to64();
    }
    assert(0 <= fraction < n) by (nonlinear_arith)
        requires
            0 <= rest < lead,
            shift > 0,
            lead * shift == n,
            fraction == rest * shift,
    ;
    assert(scalar.bits == n * (127 + exponent) + fraction);
    assert(scalar.magnitude() == n * (127 + exponent) + fraction);
    assert(scalar.magnitude() / n == 127 + exponent);
    assert(scalar.magnitude() % n == fraction);
    assert(n + fraction == whole * shift) by (nonlinear_arith)
        requires
            lead * shift == n,
            fraction == (whole - lead) * shift,
    ;
    let power: int = pow2(126 + exponent) as int;
    assert((whole * shift) * power == whole * (shift * power)) by (nonlinear_arith);
}

/// The top bit of a number is its sign, and the other bits alone say whether it is a NaN:
/// they lie above those of the infinities.
pub proof fn sign_and_nan_bits(a: Scalar)
    ensures
        a.signed() <==> a.bits & 0x8000_0000u32 != 0,
        a.magnitude() == a.bits & 0x7fff_ffffu32,
        a.spec_is_nan() <==> (a.bits & 0x7fff_ffffu32) > 0x7f80_0000u32,
{
    let b: u32 = a.bits;
    assert(b >= 0x8000_0000u32 <==> b & 0x8000_0000u32 != 0) by (bit_vector);
    assert(b >= 0x8000_0000u32 ==> b & 0x7fff_ffffu32 == b - 0x8000_0000u32) by (bit_vector);
    assert(b < 0x8000_0000u32 ==> b & 0x7fff_ffffu32 == b) by (bit_vector);
}

/// The bit patterns count up by one unit each through the two smallest exponents, and from
/// there on the next exponent doubles the number. The sign bit turns a number round.
pub proof fn values_of_bits(a: Scalar, b: Scalar)
    ensures
        a.bits < 0x0100_0000 ==> a.value() == a.bits,
        0x0080_0000 <= a.bits && b.bits == a.bits + 0x0080_0000 && b.bits < 0x8000_0000
            ==> b.value() == 2 * a.value(),
        b.bits == a.bits + 0x8000_0000 ==> b.value() == -a.value(),
{
    let n: int = MAGNITUDES_PER_EXPONENT as int;
    vstd::arithmetic::power2::lemma2_to64();
    if 0x0080_0000 <= a.bits < 0x0100_0000 {
        assert(a.magnitude() / n == 1 && a.magnitude() % n == a.magnitude() - n);
        assert(a.value() == (n + a.magnitude() % n) * pow2(0));
    }
    if 0x0080_0000 <= a.bits && b.bits == a.bits + 0x0080_0000 && b.bits < 0x8000_0000 {
        let m: int = a.magnitude();
        let q: int = m / n;
        assert((m + n) / n == q + 1 && (m + n) % n == m % n);
        vstd::arithmetic::power2::lemma_pow2_unfold(q as nat);
        let p: int = pow2((q - 1) as nat) as int;
        let f: int = n + m % n;
        assert(f * (2 * p) == 2 * (f * p)) by (nonlinear_arith);
    }
}

/// How numbers compare by their bits: those without a sign as their bits do, those with a
/// sign the other way round, and one with a sign is below one without unless both are 0.
/// A NaN is below nothing and equal to nothing, and nothing is below it.
pub proof fn comparisons_of_bits(a: Scalar, b: Scalar)
    ensures
        a.spec_is_nan() || b.spec_is_nan() ==> !a.below(b) && !a.equals(b),
        !a.spec_is_nan() && !b.spec_is_nan() ==> {
            &&& a.bits < 0x8000_0000 && b.bits < 0x8000_0000 ==> (a.below(b) <==> a.bits < b.bits)
            &&& a.bits >= 0x8000_0000 && b.bits >= 0x8000_0000 ==> (a.below(b) <==> a.bits
                > b.bits)
            &&& a.bits >= 0x8000_0000 && b.bits < 0x8000_0000 ==> (a.below(b) <==> a.bits
                != 0x8000_0000 || b.bits != 0)
            &&& a.bits < 0x8000_0000 && b.bits >= 0x8000_0000 ==> !a.below(b)
            &&& a.equals(b) <==> a.bits == b.bits || (a.bits == 0 && b.bits == 0x8000_0000) || (
            a.bits == 0x8000_0000 && b.bits == 0)
        },
{
    a.lemma_value_order(b);
}

/// The total order goes by the bits as well, NaNs and both zeros among them: what has no
/// sign as its bits, what has one the other way round and before everything else. Only one
/// bit pattern stands at each place, and of two patterns the larger is one of the two and
/// not before either.
pub proof fn total_order_of_bits(a: Scalar, b: Scalar)
    ensures
        a.bits < 0x8000_0000 && b.bits < 0x8000_0000 ==> (a.rank() < b.rank() <==> a.bits
            < b.bits),
        a.bits >= 0x8000_0000 && b.bits >= 0x8000_0000 ==> (a.rank() < b.rank() <==> a.bits
            > b.bits),
        a.bits >= 0x8000_0000 && b.bits < 0x8000_0000 ==> a.rank() < b.rank(),
        a.rank() == b.rank() ==> a == b,
        a.spec_total_max(b) == a || a.spec_total_max(b) == b,
        a.rank() <= a.spec_total_max(b).rank(),
        b.rank() <= a.spec_total_max(b).rank(),
{
}

/// A number that is capped is not above its limit, and stays what it is where it was not
/// above it before. What is no number becomes the limit.
pub proof fn capping_keeps_what_fits(a: Scalar, limit: Scalar)
    requires
        !limit.spec_is_nan(),
    ensures
        !a.capped_at(limit).spec_is_nan(),
        a.capped_at(limit).value() <= limit.value(),
        !a.spec_is_nan() && a.value() <= limit.value() ==> a.capped_at(limit) == a,
        a.spec_is_nan() || a.value() > limit.value() ==> a.capped_at(limit) == limit,
{
}

/// Only a point with both coordinates 0 is zero, and the origin is one.
pub proof fn only_the_origin_is_zero(point: Point)
    ensures
        point.spec_is_nonzero() <==> point.x.spec_is_nan() || point.y.spec_is_nan()
            || point.x.value() != 0 || point.y.value() != 0,
        Point::spec_origin().x.bits == 0,
        Point::spec_origin().y.bits == 0,
{
}

/// Sizes are the same where their widths are and their heights are, and edges where each
/// side is as long as its like. No side makes up for another.
pub proof fn sameness_is_side_by_side(
    a: Size<Scalar>,
    b: Size<Scalar>,
    e: Edges<Scalar>,
    f: Edges<Scalar>,
)
    ensures
        a.equals(b) <==> a.width.equals(b.width) && a.height.equals(b.height),
        e.equals(f) <==> e.top.equals(f.top) && e.right.equals(f.right) && e.bottom.equals(
            f.bottom,
        ) && e.left.equals(f.left),
        Edges::<Scalar>::spec_zero().top.bits == 0,
        Edges::<Scalar>::spec_zero().right.bits == 0,
        Edges::<Scalar>::spec_zero().bottom.bits == 0,
        Edges::<Scalar>::spec_zero().left.bits == 0,
{
}

/// The positive part keeps each side that is above 0 as long as it was, and leaves nothing
/// of a side that is not.
pub proof fn positive_part_is_side_by_side(edges: Edges<Scalar>)
    ensures
        ({
            let part = edges.spec_positive_part();
            &&& !edges.top.spec_is_nan() && edges.top.value() > 0 ==> part.top == edges.top
            &&& !edges.top.spec_is_nan() && edges.top.value() <= 0 ==> part.top.bits == 0
            &&& !edges.right.spec_is_nan() && edges.right.value() > 0 ==> part.right
                == edges.right
            &&& !edges.right.spec_is_nan() && edges.right.value() <= 0 ==> part.right.bits == 0
            &&& !edges.bottom.spec_is_nan() && edges.bottom.value() > 0 ==> part.bottom
                == edges.bottom
            &&& !edges.bottom.spec_is_nan() && edges.bottom.value() <= 0 ==> part.bottom.bits
                == 0
            &&& !edges.left.spec_is_nan() && edges.left.value() > 0 ==> part.left == edges.left
            &&& !edges.left.spec_is_nan() && edges.left.value() <= 0 ==> part.left.bits == 0
        }),
{
    if !edges.top.spec_is_nan() {
        positive_part_value(edges.top);
    }
    if !edges.right.spec_is_nan() {
        positive_part_value(edges.right);
    }
    if !edges.bottom.spec_is_nan() {
        positive_part_value(edges.bottom);
    }
    if !edges.left.spec_is_nan() {
        positive_part_value(edges.left);
    }
}

/// The positive part goes by the sign alone: a side without one stays as it is, and one with
/// a sign is 0, NaNs and both zeros included.
pub proof fn positive_part_goes_by_the_sign(edges: Edges<Scalar>)
    ensures
        ({
            let part = edges.spec_positive_part();
            &&& part.top.bits == if edges.top.bits < 0x8000_0000 {
                edges.top.bits
            } else {
                0
            }
            &&& part.right.bits == if edges.right.bits < 0x8000_0000 {
                edges.right.bits
            } else {
                0
            }
            &&& part.bottom.bits == if edges.bottom.bits < 0x8000_0000 {
                edges.bottom.bits
            } else {
                0
            }
            &&& part.left.bits == if edges.left.bits < 0x8000_0000 {
                edges.left.bits
            } else {
                0
            }
        }),
{
}

/// The bit patterns that stand for 1 and 2 do.
pub proof fn one_and_two()
    ensures
        (Scalar { bits: ONE_BITS }).value() == pow2(149),
        (Scalar { bits: TWO_BITS }).value() == 2 * pow2(149),
        zero().bits == 0,
{
    vstd::arithmetic::power2::lemma2_to64();
    whole_number_value(Scalar { bits: ONE_BITS }, 0, 1);
    whole_number_value(Scalar { bits: TWO_BITS }, 1, 2);
}

} // verus!
