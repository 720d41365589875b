//! Positions, displacements and rectangles in points.

use crate::fixed::{clamp_wide, divide_wide, square_root, Fixed, SCALE};
use crate::time::{Nanos, SECOND};
use vstd::prelude::*;

verus! {

/// A displacement, a velocity or a direction.
#[derive(Clone, Copy, Debug, PartialEq, Eq, Structural)]
pub struct Vec2 {
    pub x: Fixed,
    pub y: Fixed,
}

/// A position on the screen.
#[derive(Clone, Copy, Debug, PartialEq, Eq, Structural)]
pub struct Pos2 {
    pub x: Fixed,
    pub y: Fixed,
}

/// An axis-aligned rectangle between two corners.
#[derive(Clone, Copy, Debug, PartialEq, Eq, Structural)]
pub struct Rect {
    pub min: Pos2,
    pub max: Pos2,
}

/// How far the parts of the screen that may be covered reach in from each edge.
#[derive(Clone, Copy, Debug, PartialEq, Eq, Structural)]
pub struct SafeArea {
    pub left: Fixed,
    pub right: Fixed,
    pub top: Fixed,
    pub bottom: Fixed,
}

impl Default for SafeArea {
    /// No insets.
    fn default() -> (r: Self)
        ensures
            r.left.raw == 0,
            r.right.raw == 0,
            r.top.raw == 0,
            r.bottom.raw == 0,
    {
        let zero = Fixed { raw: 0 };
        SafeArea { left: zero, right: zero, top: zero, bottom: zero }
    }
}

/// The square of `x`.
pub open spec fn square(x: int) -> int {
    x * x
}

/// A number and its magnitude have the same square.
proof fn lemma_square_bound(x: int, bound: int)
    requires
        -bound <= x <= bound,
    ensures
        0 <= square(x) <= bound * bound,
{
    assert(0 <= x * x <= bound * bound) by (nonlinear_arith)
        requires
            -bound <= x <= bound,
    ;
}

/// Squares an integer that may reach one bit beyond the range of `i64`.
fn square_wide(x: i128) -> (r: u128)
    requires
        -0x8000_0000_0000_0000 <= x <= 0x8000_0000_0000_0000,
    ensures
        r == square(x as int),
        r <= 0x4000_0000_0000_0000_0000_0000_0000_0000,
{
    proof {
        lemma_square_bound(x as int, 0x8000_0000_0000_0000);
    }
    (x * x) as u128
}

impl Vec2 {
    pub open spec fn spec_zero() -> Vec2 {
        Vec2 { x: Fixed { raw: 0 }, y: Fixed { raw: 0 } }
    }

    /// No displacement.
    #[verifier::when_used_as_spec(spec_zero)]
    pub fn zero() -> (r: Vec2)
        ensures
            r == Vec2::spec_zero(),
    {
        Vec2 { x: Fixed { raw: 0 }, y: Fixed { raw: 0 } }
    }

    pub open spec fn spec_splat(v: Fixed) -> Vec2 {
        Vec2 { x: v, y: v }
    }

    /// The same number on both axes.
    #[verifier::when_used_as_spec(spec_splat)]
    pub fn splat(v: Fixed) -> (r: Vec2)
        ensures
            r == Vec2::spec_splat(v),
    {
        Vec2 { x: v, y: v }
    }

    pub open spec fn spec_plus(self, other: Vec2) -> Vec2 {
        Vec2 { x: self.x.plus(other.x), y: self.y.plus(other.y) }
    }

    /// The sum on each axis.
    #[verifier::when_used_as_spec(spec_plus)]
    pub fn plus(self, other: Vec2) -> (r: Vec2)
        ensures
            r == self.spec_plus(other),
    {
        Vec2 { x: self.x.plus(other.x), y: self.y.plus(other.y) }
    }

    pub open spec fn spec_scaled(self, factor: Fixed) -> Vec2 {
        Vec2 { x: factor.times(self.x), y: factor.times(self.y) }
    }

    /// Both axes, multiplied by `factor`.
    #[verifier::when_used_as_spec(spec_scaled)]
    pub fn scaled(self, factor: Fixed) -> (r: Vec2)
        ensures
            r == self.spec_scaled(factor),
    {
        Vec2 { x: factor.times(self.x), y: factor.times(self.y) }
    }

    /// The square of the length, in units of `1 / SCALE^2`.
    pub open spec fn length_squared(self) -> int {
        square(self.x.raw as int) + square(self.y.raw as int)
    }

    fn compute_length_squared(self) -> (r: u128)
        ensures
            r == self.length_squared(),
    {
        square_wide(self.x.raw as i128) + square_wide(self.y.raw as i128)
    }

    /// Whether the length is less than `bound`.
    pub fn is_shorter_than(self, bound: Fixed) -> (r: bool)
        ensures
            r == (bound.raw > 0 && self.length_squared() < square(bound.raw as int)),
    {
        bound.raw > 0 && self.compute_length_squared() < square_wide(bound.raw as i128)
    }

    pub open spec fn spec_per_second(self, span: Nanos) -> Vec2 {
        Vec2 {
            x: Fixed { raw: crate::fixed::clamp(crate::fixed::quotient(self.x.raw * SECOND, span as int)) },
            y: Fixed { raw: crate::fixed::clamp(crate::fixed::quotient(self.y.raw * SECOND, span as int)) },
        }
    }

    /// The velocity of something that moves by `self` in the given span.
    #[verifier::when_used_as_spec(spec_per_second)]
    pub fn per_second(self, span: Nanos) -> (r: Vec2)
        requires
            span != 0,
        ensures
            r == self.spec_per_second(span),
    {
        proof {
            crate::fixed::lemma_product_bound(self.x.raw as int, SECOND as int);
            crate::fixed::lemma_product_bound(self.y.raw as int, SECOND as int);
        }
        Vec2 {
            x: Fixed { raw: clamp_wide(divide_wide(self.x.raw as i128 * SECOND as i128, span as i128)) },
            y: Fixed { raw: clamp_wide(divide_wide(self.y.raw as i128 * SECOND as i128, span as i128)) },
        }
    }

    pub open spec fn spec_normalized(self) -> Vec2 {
        if self == Vec2::spec_zero() {
            self
        } else {
            let length = crate::fixed::root(self.length_squared());
            Vec2 {
                x: Fixed { raw: crate::fixed::clamp(crate::fixed::quotient(self.x.raw * SCALE, length)) },
                y: Fixed { raw: crate::fixed::clamp(crate::fixed::quotient(self.y.raw * SCALE, length)) },
            }
        }
    }

    /// The direction of `self`, as a vector of length one; zero for zero.
    #[verifier::when_used_as_spec(spec_normalized)]
    pub fn normalized(self) -> (r: Vec2)
        ensures
            r == self.spec_normalized(),
    {
        let squared = self.compute_length_squared();
        let length: u64 = square_root(squared);
        if self.x.raw == 0 && self.y.raw == 0 {
            return self;
        }
        proof {
            let x = self.x.raw as int;
            let y = self.y.raw as int;
            assert(x * x + y * y >= 1) by (nonlinear_arith)
                requires
                    x != 0 || y != 0,
            ;
            assert(length >= 1) by (nonlinear_arith)
                requires
                    squared >= 1,
                    length >= 0,
                    squared < (length + 1) * (length + 1),
            ;
        }
        Vec2 {
            x: Fixed { raw: clamp_wide(divide_wide(self.x.raw as i128 * SCALE as i128, length as i128)) },
            y: Fixed { raw: clamp_wide(divide_wide(self.y.raw as i128 * SCALE as i128, length as i128)) },
        }
    }
}

impl Pos2 {
    pub open spec fn spec_minus(self, other: Pos2) -> Vec2 {
        Vec2 { x: self.x.minus(other.x), y: self.y.minus(other.y) }
    }

    /// The displacement from `other` to `self`.
    #[verifier::when_used_as_spec(spec_minus)]
    pub fn minus(self, other: Pos2) -> (r: Vec2)
        ensures
            r == self.spec_minus(other),
    {
        Vec2 { x: self.x.minus(other.x), y: self.y.minus(other.y) }
    }

    /// Whether `other` is farther away than `distance`. Nothing is farther than infinity.
    pub open spec fn farther_than(self, other: Pos2, distance: Fixed) -> bool {
        ||| distance.raw < 0
        ||| distance.raw < i64::MAX && square(self.x.raw - other.x.raw) + square(self.y.raw - other.y.raw) > square(
            distance.raw as int,
        )
    }

    /// Whether the distance to `other` exceeds `distance`.
    pub fn is_farther_than(self, other: Pos2, distance: Fixed) -> (r: bool)
        ensures
            r == self.farther_than(other, distance),
    {
        let limit: i128 = distance.raw as i128;
        if limit < 0 {
            return true;
        }
        if distance.raw == i64::MAX {
            return false;
        }
        let dx: i128 = self.x.raw as i128 - other.x.raw as i128;
        let dy: i128 = self.y.raw as i128 - other.y.raw as i128;
        if dx > limit || dx < -limit || dy > limit || dy < -limit {
            proof {
                assert(dx * dx + dy * dy > limit * limit) by (nonlinear_arith)
                    requires
                        limit >= 0,
                        dx > limit || dx < -limit || dy > limit || dy < -limit,
                ;
            }
            return true;
        }
        square_wide(dx) + square_wide(dy) > square_wide(limit)
    }
}

/// The values of `t` at which one axis of a ray lies between two bounds: those with
/// `low <= t * rate <= high`.
struct Reach {
    low: i128,
    high: i128,
    rate: i128,
}

/// Whether `n / q` is such a value.
spec fn meets(reach: Reach, n: int, q: int) -> bool {
    reach.low * q <= reach.rate * n <= reach.high * q
}

/// Whether there is such a value from zero on.
spec fn reachable(reach: Reach) -> bool {
    &&& reach.low <= reach.high
    &&& reach.high >= 0
    &&& reach.rate == 0 ==> reach.low <= 0
}

/// Whether one axis is not left before the other is entered.
spec fn overlap(a: Reach, b: Reach) -> bool {
    a.low * b.rate <= b.high * a.rate
}

/// The numerator and denominator of the first value at which both axes are entered.
proof fn lemma_entry(a: Reach, b: Reach) -> (entry: (int, int))
    requires
        a.rate >= 0,
        b.rate >= 0,
        reachable(a),
        reachable(b),
        overlap(a, b),
        overlap(b, a),
    ensures
        entry.0 >= 0,
        entry.1 > 0,
        meets(a, entry.0, entry.1),
        meets(b, entry.0, entry.1),
{
    if a.low <= 0 && b.low <= 0 {
        assert(meets(a, 0, 1) && meets(b, 0, 1)) by (nonlinear_arith)
            requires
                a.low <= 0,
                b.low <= 0,
                a.high >= 0,
                b.high >= 0,
        ;
        (0, 1)
    } else if a.low > 0 && (b.low <= 0 || a.low * b.rate >= b.low * a.rate) {
        lemma_entry_of(a, b);
        (a.low as int, a.rate as int)
    } else {
        assert(b.low > 0);
        assert(a.low <= 0 || b.low * a.rate >= a.low * b.rate);
        lemma_entry_of(b, a);
        (b.low as int, b.rate as int)
    }
}

/// The axis that is entered last decides the entry.
proof fn lemma_entry_of(a: Reach, b: Reach)
    requires
        a.rate > 0,
        b.rate >= 0,
        a.low > 0,
        reachable(a),
        reachable(b),
        overlap(a, b),
        b.low <= 0 || a.low * b.rate >= b.low * a.rate,
    ensures
        meets(a, a.low as int, a.rate as int),
        meets(b, a.low as int, a.rate as int),
{
    assert(a.low * a.rate <= a.rate * a.low <= a.high * a.rate) by (nonlinear_arith)
        requires
            a.rate > 0,
            a.low <= a.high,
    ;
    assert(b.low * a.rate <= b.rate * a.low <= b.high * a.rate) by (nonlinear_arith)
        requires
            a.rate > 0,
            a.low > 0,
            b.rate >= 0,
            a.low * b.rate <= b.high * a.rate,
            b.low <= 0 || a.low * b.rate >= b.low * a.rate,
    ;
}

/// A common value leaves no axis unreachable, and none that is left too early.
proof fn lemma_common(a: Reach, b: Reach, n: int, q: int)
    requires
        a.rate >= 0,
        b.rate >= 0,
        n >= 0,
        q > 0,
        meets(a, n, q),
        meets(b, n, q),
    ensures
        reachable(a),
        overlap(a, b),
{
    assert(a.low <= a.high && a.high >= 0) by (nonlinear_arith)
        requires
            a.rate >= 0,
            n >= 0,
            q > 0,
            a.low * q <= a.rate * n,
            a.rate * n <= a.high * q,
    ;
    if a.rate == 0 {
        assert(a.low <= 0) by (nonlinear_arith)
            requires
                q > 0,
                a.low * q <= 0 * n,
        ;
    }
    assert(a.low * q * b.rate <= a.rate * n * b.rate) by (nonlinear_arith)
        requires
            a.low * q <= a.rate * n,
            b.rate >= 0,
    ;
    assert(b.rate * n * a.rate <= b.high * q * a.rate) by (nonlinear_arith)
        requires
            b.rate * n <= b.high * q,
            a.rate >= 0,
    ;
    assert(a.rate * n * b.rate == b.rate * n * a.rate) by (nonlinear_arith);
    assert(a.low * b.rate <= b.high * a.rate) by (nonlinear_arith)
        requires
            q > 0,
            a.low * q * b.rate <= b.high * q * a.rate,
    ;
}

/// Whether the coordinate `o + d * n / q` lies between `low` and `high`.
pub open spec fn between(low: Fixed, high: Fixed, o: Fixed, d: Fixed, n: int, q: int) -> bool {
    low.raw * q <= o.raw * q + d.raw * n <= high.raw * q
}

/// The values at which the coordinate `o + d * t` lies between `low` and `high`.
fn reach(low: Fixed, high: Fixed, o: Fixed, d: Fixed) -> (r: Reach)
    ensures
        0 <= r.rate <= 0x8000_0000_0000_0000,
        -0xffff_ffff_ffff_ffff <= r.low <= 0xffff_ffff_ffff_ffff,
        -0xffff_ffff_ffff_ffff <= r.high <= 0xffff_ffff_ffff_ffff,
        forall|n: int, q: int| q > 0 ==> #[trigger] meets(r, n, q) == between(low, high, o, d, n, q),
{
    let r = if d.raw >= 0 {
        Reach {
            low: low.raw as i128 - o.raw as i128,
            high: high.raw as i128 - o.raw as i128,
            rate: d.raw as i128,
        }
    } else {
        Reach {
            low: o.raw as i128 - high.raw as i128,
            high: o.raw as i128 - low.raw as i128,
            rate: -(d.raw as i128),
        }
    };
    proof {
        let (l, h, s, v) = (low.raw as int, high.raw as int, o.raw as int, d.raw as int);
        assert forall|n: int, q: int| q > 0 implies #[trigger] meets(r, n, q) == between(
            low,
            high,
            o,
            d,
            n,
            q,
        ) by {
            assert((l - s) * q == l * q - s * q) by (nonlinear_arith);
            assert((h - s) * q == h * q - s * q) by (nonlinear_arith);
            assert((s - l) * q == s * q - l * q) by (nonlinear_arith);
            assert((s - h) * q == s * q - h * q) by (nonlinear_arith);
            assert((-v) * n == -(v * n)) by (nonlinear_arith);
        }
    }
    r
}

/// Whether one axis is not left before the other is entered.
fn is_overlap(a: &Reach, b: &Reach) -> (r: bool)
    requires
        0 <= a.rate <= 0x8000_0000_0000_0000,
        0 <= b.rate <= 0x8000_0000_0000_0000,
        -0xffff_ffff_ffff_ffff <= a.low <= 0xffff_ffff_ffff_ffff,
        -0xffff_ffff_ffff_ffff <= b.high <= 0xffff_ffff_ffff_ffff,
    ensures
        r == overlap(*a, *b),
{
    assert(-0x8000_0000_0000_0000 * 0xffff_ffff_ffff_ffff <= a.low * b.rate <= 0x8000_0000_0000_0000
        * 0xffff_ffff_ffff_ffff) by (nonlinear_arith)
        requires
            0 <= b.rate <= 0x8000_0000_0000_0000,
            -0xffff_ffff_ffff_ffff <= a.low <= 0xffff_ffff_ffff_ffff,
    ;
    assert(-0x8000_0000_0000_0000 * 0xffff_ffff_ffff_ffff <= b.high * a.rate <= 0x8000_0000_0000_0000
        * 0xffff_ffff_ffff_ffff) by (nonlinear_arith)
        requires
            0 <= a.rate <= 0x8000_0000_0000_0000,
            -0xffff_ffff_ffff_ffff <= b.high <= 0xffff_ffff_ffff_ffff,
    ;
    a.low * b.rate <= b.high * a.rate
}

impl Rect {
    /// Whether the point `o + d * n / q` lies in the rectangle.
    pub open spec fn holds(self, o: Pos2, d: Vec2, n: int, q: int) -> bool {
        between(self.min.x, self.max.x, o.x, d.x, n, q) && between(self.min.y, self.max.y, o.y, d.y, n, q)
    }

    /// Whether some point of the ray from `o` in the direction `d` lies in the rectangle.
    pub open spec fn on_ray(self, o: Pos2, d: Vec2) -> bool {
        exists|n: int, q: int| n >= 0 && q > 0 && #[trigger] self.holds(o, d, n, q)
    }

    /// Whether the ray from `o` in the direction `d` meets the rectangle.
    pub fn intersects_ray(self, o: Pos2, d: Vec2) -> (r: bool)
        ensures
            r == self.on_ray(o, d),
    {
        let x = reach(self.min.x, self.max.x, o.x, d.x);
        let y = reach(self.min.y, self.max.y, o.y, d.y);
        let r = x.low <= x.high && x.high >= 0 && (x.rate > 0 || x.low <= 0) && y.low <= y.high && y.high >= 0
            && (y.rate > 0 || y.low <= 0) && is_overlap(&x, &y) && is_overlap(&y, &x);
        proof {
            if r {
                let (n, q) = lemma_entry(x, y);
                assert(self.holds(o, d, n, q));
            }
            if self.on_ray(o, d) {
                let (n, q) = choose|n: int, q: int| n >= 0 && q > 0 && #[trigger] self.holds(o, d, n, q);
                assert(meets(x, n, q) && meets(y, n, q));
                lemma_common(x, y, n, q);
                lemma_common(y, x, n, q);
            }
        }
        r
    }

    pub open spec fn spec_height(self) -> Fixed {
        self.max.y.minus(self.min.y)
    }

    /// The extent on the vertical axis.
    #[verifier::when_used_as_spec(spec_height)]
    pub fn height(self) -> (r: Fixed)
        ensures
            r == self.spec_height(),
    {
        self.max.y.minus(self.min.y)
    }

    pub open spec fn spec_shrunk(self, insets: SafeArea) -> Rect {
        Rect {
            min: Pos2 { x: self.min.x.plus(insets.left), y: self.min.y.plus(insets.top) },
            max: Pos2 { x: self.max.x.minus(insets.right), y: self.max.y.minus(insets.bottom) },
        }
    }

    /// What is left of the rectangle inside the insets.
    #[verifier::when_used_as_spec(spec_shrunk)]
    pub fn shrunk(self, insets: SafeArea) -> (r: Rect)
        ensures
            r == self.spec_shrunk(insets),
    {
        Rect {
            min: Pos2 { x: self.min.x.plus(insets.left), y: self.min.y.plus(insets.top) },
            max: Pos2 { x: self.max.x.minus(insets.right), y: self.max.y.minus(insets.bottom) },
        }
    }
}

} // verus!
