//! Binary fixed-point numbers: the coordinates, speeds and factors of the input state.
//!
//! A [`Fixed`] counts units of `2^-32`. Every single-precision float of magnitude
//! between `2^-8` and `2^31` is such a count. Arithmetic saturates at the two ends
//! of the range, which stand for the infinities.

use vstd::prelude::*;

verus! {

/// The number of units in one.
pub const SCALE: i64 = 4_294_967_296;

/// A number in units of `1 / SCALE`.
#[derive(Clone, Copy, Debug, PartialEq, Eq, Structural)]
pub struct Fixed {
    pub raw: i64,
}

/// The machine integer nearest to `x`.
pub open spec fn clamp(x: int) -> i64 {
    if x > i64::MAX {
        i64::MAX
    } else if x < i64::MIN {
        i64::MIN
    } else {
        x as i64
    }
}

/// The magnitude of `x`.
pub open spec fn magnitude(x: int) -> int {
    if x < 0 {
        -x
    } else {
        x
    }
}

/// The quotient of `a` and `b`, rounded toward zero.
pub open spec fn quotient(a: int, b: int) -> int
    recommends
        b != 0,
{
    if (a < 0) == (b < 0) {
        magnitude(a) / magnitude(b)
    } else {
        -(magnitude(a) / magnitude(b))
    }
}

/// Brings a wide integer into the range of `i64`.
pub(crate) fn clamp_wide(x: i128) -> (r: i64)
    ensures
        r == clamp(x as int),
{
    if x > 9_223_372_036_854_775_807i128 {
        i64::MAX
    } else if x < -9_223_372_036_854_775_808i128 {
        i64::MIN
    } else {
        x as i64
    }
}

/// Divides wide integers, rounding toward zero.
pub(crate) fn divide_wide(a: i128, b: i128) -> (r: i128)
    requires
        b != 0,
        -0x4000_0000_0000_0000_0000_0000_0000_0000 <= a <= 0x4000_0000_0000_0000_0000_0000_0000_0000,
        -0x4000_0000_0000_0000_0000_0000_0000_0000 <= b <= 0x4000_0000_0000_0000_0000_0000_0000_0000,
    ensures
        r == quotient(a as int, b as int),
{
    let n: u128 = if a < 0 { (-a) as u128 } else { a as u128 };
    let d: u128 = if b < 0 { (-b) as u128 } else { b as u128 };
    let q: u128 = n / d;
    assert(q <= n) by (nonlinear_arith)
        requires
            d >= 1,
            q == n / d,
            n >= 0,
    ;
    if (a < 0) == (b < 0) {
        q as i128
    } else {
        -(q as i128)
    }
}

/// The product of two `i64`s fits well inside an `i128`.
pub(crate) proof fn lemma_product_bound(a: int, b: int)
    requires
        i64::MIN <= a <= i64::MAX,
        i64::MIN <= b <= i64::MAX,
    ensures
        -0x4000_0000_0000_0000_0000_0000_0000_0000 <= a * b <= 0x4000_0000_0000_0000_0000_0000_0000_0000,
{
    assert(-0x8000_0000_0000_0000 * 0x8000_0000_0000_0000 <= a * b <= 0x8000_0000_0000_0000
        * 0x8000_0000_0000_0000) by (nonlinear_arith)
        requires
            -0x8000_0000_0000_0000 <= a <= 0x7fff_ffff_ffff_ffff,
            -0x8000_0000_0000_0000 <= b <= 0x7fff_ffff_ffff_ffff,
    ;
}

impl Fixed {
    pub open spec fn spec_from_int(n: i32) -> Fixed {
        Fixed { raw: (n * SCALE) as i64 }
    }

    /// The whole number `n`.
    #[verifier::when_used_as_spec(spec_from_int)]
    pub fn from_int(n: i32) -> (r: Fixed)
        ensures
            r == Fixed::spec_from_int(n),
            r.raw == n * SCALE,
    {
        Fixed { raw: n as i64 * SCALE }
    }

    pub open spec fn spec_plus(self, other: Fixed) -> Fixed {
        Fixed { raw: clamp(self.raw + other.raw) }
    }

    /// The sum, saturating.
    #[verifier::when_used_as_spec(spec_plus)]
    pub fn plus(self, other: Fixed) -> (r: Fixed)
        ensures
            r == self.spec_plus(other),
    {
        Fixed { raw: clamp_wide(self.raw as i128 + other.raw as i128) }
    }

    pub open spec fn spec_minus(self, other: Fixed) -> Fixed {
        Fixed { raw: clamp(self.raw - other.raw) }
    }

    /// The difference, saturating.
    #[verifier::when_used_as_spec(spec_minus)]
    pub fn minus(self, other: Fixed) -> (r: Fixed)
        ensures
            r == self.spec_minus(other),
    {
        Fixed { raw: clamp_wide(self.raw as i128 - other.raw as i128) }
    }

    pub open spec fn spec_times(self, other: Fixed) -> Fixed {
        Fixed { raw: clamp(quotient(self.raw * other.raw, SCALE as int)) }
    }

    /// The product, rounded toward zero and saturating.
    #[verifier::when_used_as_spec(spec_times)]
    pub fn times(self, other: Fixed) -> (r: Fixed)
        ensures
            r == self.spec_times(other),
    {
        proof {
            lemma_product_bound(self.raw as int, other.raw as int);
        }
        Fixed { raw: clamp_wide(divide_wide(self.raw as i128 * other.raw as i128, SCALE as i128)) }
    }

    pub open spec fn spec_over(self, other: Fixed) -> Fixed {
        if other.raw == 0 {
            if self.raw > 0 {
                Fixed { raw: i64::MAX }
            } else if self.raw < 0 {
                Fixed { raw: i64::MIN }
            } else {
                Fixed { raw: 0 }
            }
        } else {
            Fixed { raw: clamp(quotient(self.raw * SCALE, other.raw as int)) }
        }
    }

    /// The quotient, rounded toward zero and saturating. Division by zero gives the
    /// end of the range on the side of `self`, and zero for zero.
    #[verifier::when_used_as_spec(spec_over)]
    pub fn over(self, other: Fixed) -> (r: Fixed)
        ensures
            r == self.spec_over(other),
    {
        if other.raw == 0 {
            if self.raw > 0 {
                Fixed { raw: i64::MAX }
            } else if self.raw < 0 {
                Fixed { raw: i64::MIN }
            } else {
                Fixed { raw: 0 }
            }
        } else {
            proof {
                lemma_product_bound(self.raw as int, SCALE as int);
            }
            Fixed { raw: clamp_wide(divide_wide(self.raw as i128 * SCALE as i128, other.raw as i128)) }
        }
    }

    /// Whether the magnitude of `self` is less than `bound`.
    pub open spec fn within(self, bound: Fixed) -> bool {
        -bound.raw < self.raw < bound.raw
    }

    /// Whether the magnitude of `self` is less than `bound`.
    pub fn is_within(self, bound: Fixed) -> (r: bool)
        ensures
            r == self.within(bound),
    {
        bound.raw > 0 && -bound.raw < self.raw && self.raw < bound.raw
    }
}

/// Whether `r` is the square root of `n`, rounded down.
pub open spec fn is_root(n: int, r: int) -> bool {
    0 <= r && r * r <= n < (r + 1) * (r + 1)
}

/// The square root of `n`, rounded down.
pub open spec fn root(n: int) -> int {
    choose|r: int| is_root(n, r)
}

/// A rounded square root is the only one of its number.
pub proof fn lemma_root(n: int, r: int)
    requires
        is_root(n, r),
    ensures
        root(n) == r,
{
    let c = root(n);
    assert(is_root(n, c));
    assert(c == r) by (nonlinear_arith)
        requires
            0 <= r,
            0 <= c,
            r * r <= n,
            n < (r + 1) * (r + 1),
            c * c <= n,
            n < (c + 1) * (c + 1),
    ;
}

/// Computes the square root of `n`, rounded down.
pub(crate) fn square_root(n: u128) -> (r: u64)
    ensures
        is_root(n as int, r as int),
        r == root(n as int),
{
    let mut low: u64 = 0;
    let mut high: u128 = 0x1_0000_0000_0000_0000;
    while high - low as u128 > 1
        invariant
            low < high <= 0x1_0000_0000_0000_0000,
            low * low <= n < high * high,
        decreases high - low,
    {
        let mid: u128 = low as u128 + (high - low as u128) / 2;
        assert(mid * mid <= 0xffff_ffff_ffff_ffff * 0xffff_ffff_ffff_ffff) by (nonlinear_arith)
            requires
                0 <= mid <= 0xffff_ffff_ffff_ffff,
        ;
        if mid * mid <= n {
            low = mid as u64;
        } else {
            high = mid;
        }
    }
    proof {
        lemma_root(n as int, low as int);
    }
    low
}

} // verus!
