//! Numbers, times and distances, in terms of the integers that stand for them.

use crate::fixed::Fixed;
use crate::geometry::{Pos2, Rect, SafeArea, Vec2};
use crate::time::Nanos;
use vstd::prelude::*;

verus! {

/// Whether `r` is `num / den`, rounded toward zero.
pub open spec fn rounds(r: int, num: int, den: int) -> bool {
    &&& num >= 0 ==> 0 <= r && r * den <= num < (r + 1) * den
    &&& num <= 0 ==> r <= 0 && (r - 1) * den < num <= r * den
}

/// Whether `r` is `num / den`, rounded toward zero, or the end of the range that is nearest to it.
pub open spec fn rounds_in_range(r: i64, num: int, den: int) -> bool {
    &&& i64::MIN < r < i64::MAX ==> rounds(r as int, num, den)
    &&& r == i64::MAX ==> num >= i64::MAX * den
    &&& r == i64::MIN ==> num <= i64::MIN * den
}

/// There is only one rounded quotient.
pub proof fn rounded_quotient_is_unique(a: int, b: int, num: int, den: int)
    requires
        den > 0,
        rounds(a, num, den),
        rounds(b, num, den),
    ensures
        a == b,
{
    assert(a == b) by (nonlinear_arith)
        requires
            den > 0,
            num >= 0 ==> 0 <= a && a * den <= num && num < (a + 1) * den,
            num <= 0 ==> a <= 0 && (a - 1) * den < num && num <= a * den,
            num >= 0 ==> 0 <= b && b * den <= num && num < (b + 1) * den,
            num <= 0 ==> b <= 0 && (b - 1) * den < num && num <= b * den,
    ;
}

/// A quotient that is rounded toward zero, and brought into range.
pub(crate) proof fn lemma_quotient(num: int, den: int)
    requires
        den > 0,
    ensures
        rounds(crate::fixed::quotient(num, den), num, den),
        rounds_in_range(crate::fixed::clamp(crate::fixed::quotient(num, den)), num, den),
{
    let m = if num < 0 {
        -num
    } else {
        num
    };
    let q = m / den;
    assert(q >= 0 && q * den <= m && m < (q + 1) * den) by (nonlinear_arith)
        requires
            m >= 0,
            den > 0,
            q == m / den,
    ;
    let r = crate::fixed::quotient(num, den);
    assert(r == if num < 0 {
        -q
    } else {
        q
    });
    assert((-q - 1) * den == -((q + 1) * den) && (-q) * den == -(q * den)) by (nonlinear_arith);
    assert(rounds(r, num, den));
    if r > i64::MAX {
        assert(num >= i64::MAX * den) by (nonlinear_arith)
            requires
                den > 0,
                r > i64::MAX,
                r * den <= num,
        ;
    }
    if r < i64::MIN {
        assert(num <= i64::MIN * den) by (nonlinear_arith)
            requires
                den > 0,
                r < i64::MIN,
                num <= r * den,
        ;
    }
}

/// A whole number is so many times the number of units in one.
pub proof fn whole_numbers_are_exact(n: i32)
    ensures
        Fixed::from_int(n).raw == n * 4_294_967_296,
{
}

/// A sum is exact unless it is out of range, and then it is the end that it is beyond. The same
/// goes for a difference.
pub proof fn sums_are_exact_in_range(a: Fixed, b: Fixed)
    ensures
        i64::MIN <= a.raw + b.raw <= i64::MAX ==> a.plus(b).raw == a.raw + b.raw,
        a.raw + b.raw > i64::MAX ==> a.plus(b).raw == i64::MAX,
        a.raw + b.raw < i64::MIN ==> a.plus(b).raw == i64::MIN,
        i64::MIN <= a.raw - b.raw <= i64::MAX ==> a.minus(b).raw == a.raw - b.raw,
        a.raw - b.raw > i64::MAX ==> a.minus(b).raw == i64::MAX,
        a.raw - b.raw < i64::MIN ==> a.minus(b).raw == i64::MIN,
{
}

/// What is added can be taken away again, as long as the sum is in range.
pub proof fn difference_undoes_sum(a: Fixed, b: Fixed)
    requires
        i64::MIN <= a.raw + b.raw <= i64::MAX,
    ensures
        a.plus(b).minus(b) == a,
        a.plus(b) == b.plus(a),
{
}

/// A product is the product of the numbers, rounded toward zero to a whole number of units. It does
/// not depend on the order, and one is neutral.
pub proof fn products_are_rounded(a: Fixed, b: Fixed)
    ensures
        rounds_in_range(a.times(b).raw, a.raw * b.raw, 4_294_967_296),
        a.times(b) == b.times(a),
        a.times(Fixed::from_int(1)) == a,
{
    lemma_quotient(a.raw * b.raw, 4_294_967_296);
    assert(a.raw * b.raw == b.raw * a.raw) by (nonlinear_arith);
    let n = a.raw as int;
    let one = 4_294_967_296int;
    lemma_quotient(n * one, one);
    assert(rounds(n, n * one, one)) by (nonlinear_arith)
        requires
            one == 4_294_967_296,
    ;
    rounded_quotient_is_unique(n, crate::fixed::quotient(n * one, one), n * one, one);
}

/// A quotient is the quotient of the numbers, rounded toward zero to a whole number of units.
/// Division by zero gives the end of the range on the side of the dividend, and zero for zero.
pub proof fn quotients_are_rounded(a: Fixed, b: Fixed)
    ensures
        b.raw > 0 ==> rounds_in_range(a.over(b).raw, a.raw * 4_294_967_296, b.raw as int),
        b.raw < 0 ==> rounds_in_range(a.over(b).raw, -(a.raw * 4_294_967_296), -(b.raw as int)),
        b.raw == 0 && a.raw > 0 ==> a.over(b).raw == i64::MAX,
        b.raw == 0 && a.raw < 0 ==> a.over(b).raw == i64::MIN,
        b.raw == 0 && a.raw == 0 ==> a.over(b).raw == 0,
{
    let num = a.raw * 4_294_967_296;
    if b.raw > 0 {
        lemma_quotient(num, b.raw as int);
    } else if b.raw < 0 {
        lemma_quotient(-num, -(b.raw as int));
        let den = -(b.raw as int);
        assert(0int / den == 0) by (nonlinear_arith)
            requires
                den > 0,
        ;
        assert(crate::fixed::quotient(num, b.raw as int) == crate::fixed::quotient(-num, den));
    }
}

/// A rounded square root lies within one of the root.
pub proof fn roots_are_rounded_down(n: int, r: int)
    requires
        0 <= r,
        r * r <= n < (r + 1) * (r + 1),
    ensures
        crate::fixed::root(n) == r,
{
    crate::fixed::lemma_root(n, r);
}

/// Whether a number is within a bound goes by its magnitude.
pub proof fn within_goes_by_magnitude(n: Fixed, bound: Fixed)
    ensures
        n.raw >= 0 ==> (n.within(bound) <==> n.raw < bound.raw),
        n.raw < 0 ==> (n.within(bound) <==> -n.raw < bound.raw),
{
}

/// The span between two points in time is their difference, as long as it is in range, and infinite
/// since what never was. A span after a point in time lies that far from it.
pub proof fn spans_are_differences(now: Nanos, then: Nanos, span: Nanos)
    ensures
        then != i64::MIN && i64::MIN <= now - then <= i64::MAX ==> crate::time::elapsed(now, then) == now - then,
        then != i64::MIN && now - then > i64::MAX ==> crate::time::elapsed(now, then) == i64::MAX,
        then != i64::MIN && now - then < i64::MIN ==> crate::time::elapsed(now, then) == i64::MIN,
        then == i64::MIN ==> crate::time::elapsed(now, then) == i64::MAX,
        i64::MIN <= then + span <= i64::MAX ==> crate::time::later(then, span) == then + span,
{
}

/// Vectors are added, and positions subtracted, on each axis alone.
pub proof fn axes_are_apart(a: Vec2, b: Vec2, p: Pos2, q: Pos2)
    ensures
        i64::MIN <= a.x.raw + b.x.raw <= i64::MAX ==> a.plus(b).x.raw == a.x.raw + b.x.raw,
        i64::MIN <= a.y.raw + b.y.raw <= i64::MAX ==> a.plus(b).y.raw == a.y.raw + b.y.raw,
        i64::MIN <= p.x.raw - q.x.raw <= i64::MAX ==> p.minus(q).x.raw == p.x.raw - q.x.raw,
        i64::MIN <= p.y.raw - q.y.raw <= i64::MAX ==> p.minus(q).y.raw == p.y.raw - q.y.raw,
{
}

/// A vector that is scaled is scaled on both axes.
pub proof fn scaling_is_on_both_axes(v: Vec2, factor: Fixed)
    ensures
        rounds_in_range(v.scaled(factor).x.raw, v.x.raw * factor.raw, 4_294_967_296),
        rounds_in_range(v.scaled(factor).y.raw, v.y.raw * factor.raw, 4_294_967_296),
{
    products_are_rounded(factor, v.x);
    products_are_rounded(factor, v.y);
    assert(v.x.raw * factor.raw == factor.raw * v.x.raw) by (nonlinear_arith);
    assert(v.y.raw * factor.raw == factor.raw * v.y.raw) by (nonlinear_arith);
}

/// A velocity is the displacement on each axis, divided by the span in seconds.
pub proof fn velocities_are_displacements_over_time(v: Vec2, span: Nanos)
    requires
        span > 0,
    ensures
        rounds_in_range(v.per_second(span).x.raw, v.x.raw * 1_000_000_000, span as int),
        rounds_in_range(v.per_second(span).y.raw, v.y.raw * 1_000_000_000, span as int),
{
    lemma_quotient(v.x.raw * 1_000_000_000, span as int);
    lemma_quotient(v.y.raw * 1_000_000_000, span as int);
}

/// A direction is the vector on each axis, divided by its length. That of no vector is none.
pub proof fn directions_are_vectors_over_lengths(v: Vec2, length: int)
    requires
        length >= 1,
        length * length <= v.x.raw * v.x.raw + v.y.raw * v.y.raw < (length + 1) * (length + 1),
    ensures
        rounds_in_range(v.normalized().x.raw, v.x.raw * 4_294_967_296, length),
        rounds_in_range(v.normalized().y.raw, v.y.raw * 4_294_967_296, length),
        Vec2::zero().normalized() == Vec2::zero(),
{
    roots_are_rounded_down(v.length_squared(), length);
    assert(v != Vec2::zero()) by {
        assert(length * length >= 1) by (nonlinear_arith)
            requires
                length >= 1,
        ;
    }
    lemma_quotient(v.x.raw * 4_294_967_296, length);
    lemma_quotient(v.y.raw * 4_294_967_296, length);
}

/// A vector has no length if and only if it is zero on both axes.
pub proof fn no_vector_is_zero_on_both_axes(v: Vec2)
    ensures
        v == Vec2::zero() <==> v.x.raw == 0 && v.y.raw == 0,
        v.length_squared() == v.x.raw * v.x.raw + v.y.raw * v.y.raw,
        Vec2::splat(v.x) == (Vec2 { x: v.x, y: v.x }),
{
}

/// A position is farther than a distance if the squares of the differences on the two axes add up
/// to more than the square of the distance. It does not matter from which of the two one looks.
/// Nothing is farther than infinity, and everything is farther than a negative distance.
pub proof fn distances_follow_from_the_axes(p: Pos2, q: Pos2, distance: Fixed)
    ensures
        ({
            let dx = p.x.raw - q.x.raw;
            let dy = p.y.raw - q.y.raw;
            let d = distance.raw as int;
            &&& 0 <= d < i64::MAX ==> (p.farther_than(q, distance) <==> dx * dx + dy * dy > d * d)
            &&& d == i64::MAX ==> !p.farther_than(q, distance)
            &&& d < 0 ==> p.farther_than(q, distance)
            &&& p.farther_than(q, distance) == q.farther_than(p, distance)
            &&& d >= 0 ==> !p.farther_than(p, distance)
        }),
{
    let dx = p.x.raw - q.x.raw;
    let dy = p.y.raw - q.y.raw;
    let d = distance.raw as int;
    assert((-dx) * (-dx) == dx * dx && (-dy) * (-dy) == dy * dy && d * d >= 0) by (nonlinear_arith);
}

/// The height of a rectangle is the distance of its vertical ends, wherever it lies horizontally.
pub proof fn height_is_vertical(rect: Rect)
    ensures
        i64::MIN <= rect.max.y.raw - rect.min.y.raw <= i64::MAX ==> rect.height().raw == rect.max.y.raw
            - rect.min.y.raw,
{
}

/// Insets move each side of a rectangle inward by as much as they say for it.
pub proof fn insets_move_the_sides_inward(rect: Rect, insets: SafeArea)
    requires
        i64::MIN <= rect.min.x.raw + insets.left.raw <= i64::MAX,
        i64::MIN <= rect.min.y.raw + insets.top.raw <= i64::MAX,
        i64::MIN <= rect.max.x.raw - insets.right.raw <= i64::MAX,
        i64::MIN <= rect.max.y.raw - insets.bottom.raw <= i64::MAX,
    ensures
        rect.shrunk(insets).min.x.raw - rect.min.x.raw == insets.left.raw,
        rect.shrunk(insets).min.y.raw - rect.min.y.raw == insets.top.raw,
        rect.max.x.raw - rect.shrunk(insets).max.x.raw == insets.right.raw,
        rect.max.y.raw - rect.shrunk(insets).max.y.raw == insets.bottom.raw,
{
}

/// Whether a position lies in a rectangle.
pub open spec fn lies_in(rect: Rect, p: Pos2) -> bool {
    &&& rect.min.x.raw <= p.x.raw <= rect.max.x.raw
    &&& rect.min.y.raw <= p.y.raw <= rect.max.y.raw
}

/// A ray meets a rectangle if it starts in it, or if it leads to a position in it.
pub proof fn rays_meet_what_they_lead_to(rect: Rect, o: Pos2, d: Vec2, target: Pos2, n: int, q: int)
    requires
        lies_in(rect, target),
        n >= 0,
        q > 0,
        (target.x.raw - o.x.raw) * q == d.x.raw * n,
        (target.y.raw - o.y.raw) * q == d.y.raw * n,
    ensures
        rect.on_ray(o, d),
{
    let (tx, ty, ox, oy) = (target.x.raw as int, target.y.raw as int, o.x.raw as int, o.y.raw as int);
    assert((tx - ox) * q == tx * q - ox * q) by (nonlinear_arith);
    assert((ty - oy) * q == ty * q - oy * q) by (nonlinear_arith);
    lemma_scaled_bounds(rect.min.x.raw as int, tx, rect.max.x.raw as int, q);
    lemma_scaled_bounds(rect.min.y.raw as int, ty, rect.max.y.raw as int, q);
    assert(rect.holds(o, d, n, q));
}

proof fn lemma_scaled_bounds(low: int, x: int, high: int, q: int)
    requires
        low <= x <= high,
        q > 0,
    ensures
        low * q <= x * q <= high * q,
{
    assert(low * q <= x * q && x * q <= high * q) by (nonlinear_arith)
        requires
            low <= x,
            x <= high,
            q > 0,
    ;
}

/// A ray does not meet a rectangle that lies behind its start, on either axis.
pub proof fn rays_do_not_meet_what_lies_behind(rect: Rect, o: Pos2, d: Vec2)
    requires
        ({
            ||| d.x.raw >= 0 && rect.max.x.raw < o.x.raw
            ||| d.x.raw <= 0 && rect.min.x.raw > o.x.raw
            ||| d.y.raw >= 0 && rect.max.y.raw < o.y.raw
            ||| d.y.raw <= 0 && rect.min.y.raw > o.y.raw
        }),
    ensures
        !rect.on_ray(o, d),
{
    if rect.on_ray(o, d) {
        let (n, q) = choose|n: int, q: int| n >= 0 && q > 0 && #[trigger] rect.holds(o, d, n, q);
        lemma_behind(rect.min.x.raw as int, rect.max.x.raw as int, o.x.raw as int, d.x.raw as int, n, q);
        lemma_behind(rect.min.y.raw as int, rect.max.y.raw as int, o.y.raw as int, d.y.raw as int, n, q);
    }
}

proof fn lemma_behind(low: int, high: int, o: int, d: int, n: int, q: int)
    requires
        n >= 0,
        q > 0,
        low * q <= o * q + d * n <= high * q,
    ensures
        d >= 0 ==> high >= o,
        d <= 0 ==> low <= o,
{
    if d >= 0 {
        assert(high >= o) by (nonlinear_arith)
            requires
                n >= 0,
                q > 0,
                d >= 0,
                o * q + d * n <= high * q,
        ;
    }
    if d <= 0 {
        assert(low <= o) by (nonlinear_arith)
            requires
                n >= 0,
                q > 0,
                d <= 0,
                low * q <= o * q + d * n,
        ;
    }
}

/// On which side of the line through `o` in the direction `d` a position lies: positive on one,
/// negative on the other, zero on the line.
pub open spec fn side(o: Pos2, d: Vec2, x: int, y: int) -> int {
    (x - o.x.raw) * d.y.raw - (y - o.y.raw) * d.x.raw
}

/// A ray does not meet a rectangle that lies wholly on one side of it.
pub proof fn rays_do_not_meet_what_lies_aside(rect: Rect, o: Pos2, d: Vec2)
    requires
        ({
            let (l, r) = (rect.min.x.raw as int, rect.max.x.raw as int);
            let (t, b) = (rect.min.y.raw as int, rect.max.y.raw as int);
            ||| side(o, d, l, t) > 0 && side(o, d, l, b) > 0 && side(o, d, r, t) > 0 && side(o, d, r, b) > 0
            ||| side(o, d, l, t) < 0 && side(o, d, l, b) < 0 && side(o, d, r, t) < 0 && side(o, d, r, b) < 0
        }),
    ensures
        !rect.on_ray(o, d),
{
    if rect.on_ray(o, d) {
        let (n, q) = choose|n: int, q: int| n >= 0 && q > 0 && #[trigger] rect.holds(o, d, n, q);
        let (l, r) = (rect.min.x.raw as int, rect.max.x.raw as int);
        let (t, b) = (rect.min.y.raw as int, rect.max.y.raw as int);
        let (ox, oy, dx, dy) = (o.x.raw as int, o.y.raw as int, d.x.raw as int, d.y.raw as int);
        // The corners that lie farthest on either side.
        let (hx, lx) = if dy >= 0 {
            (r, l)
        } else {
            (l, r)
        };
        let (hy, ly) = if dx >= 0 {
            (t, b)
        } else {
            (b, t)
        };
        lemma_farthest(l, r, ox, dx, dy, n, q);
        lemma_farthest(t, b, oy, dy, dx, n, q);
        let up = (hx - ox) * dy;
        let down = (lx - ox) * dy;
        let over = (hy - oy) * dx;
        let under = (ly - oy) * dx;
        let along = dx * dy * n;
        assert(dy * dx * n == along) by (nonlinear_arith)
            requires
                along == dx * dy * n,
        ;
        assert(down * q <= along && along <= up * q);
        assert(over * q <= along && along <= under * q);
        assert(side(o, d, hx, hy) == up - over);
        assert(side(o, d, lx, ly) == down - under);
        assert(up >= over && down <= under) by (nonlinear_arith)
            requires
                q > 0,
                down * q <= along,
                along <= up * q,
                over * q <= along,
                along <= under * q,
        ;
    }
}

/// How far a coordinate on a ray can be, as seen along the other axis.
proof fn lemma_farthest(low: int, high: int, o: int, d: int, e: int, n: int, q: int)
    requires
        n >= 0,
        q > 0,
        low * q <= o * q + d * n <= high * q,
    ensures
        e >= 0 ==> (low - o) * e * q <= d * e * n <= (high - o) * e * q,
        e < 0 ==> (high - o) * e * q <= d * e * n <= (low - o) * e * q,
        ((low - o) * e) * q == (low - o) * e * q,
{
    let a = d * n - (low - o) * q;
    let b = (high - o) * q - d * n;
    assert((low - o) * q == low * q - o * q && (high - o) * q == high * q - o * q) by (nonlinear_arith);
    assert(a >= 0 && b >= 0);
    assert(a * e == d * e * n - (low - o) * e * q) by (nonlinear_arith)
        requires
            a == d * n - (low - o) * q,
    ;
    assert(b * e == (high - o) * e * q - d * e * n) by (nonlinear_arith)
        requires
            b == (high - o) * q - d * n,
    ;
    if e >= 0 {
        assert(a * e >= 0 && b * e >= 0) by (nonlinear_arith)
            requires
                a >= 0,
                b >= 0,
                e >= 0,
        ;
    } else {
        assert(a * e <= 0 && b * e <= 0) by (nonlinear_arith)
            requires
                a >= 0,
                b >= 0,
                e < 0,
        ;
    }
}

} // verus!
