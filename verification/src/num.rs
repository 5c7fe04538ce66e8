//! Saturating and truncating integer arithmetic for the simulation kernel.
//!
//! Every simulated quantity is an `i64`; sums and products saturate at the
//! `i64` range, and divisions truncate toward zero. The numeric edge cases
//! are handled locally (clamping), never surfaced as errors.

use vstd::prelude::*;

verus! {

use vstd::arithmetic::div_mod::{lemma_div_pos_is_pos, lemma_div_nonincreasing};

/// Upper bound accepted for masses, distances and rational coefficients, so
/// that products inside the force formulas stay well within `i128`.
pub const LIMIT: i64 = 1_000_000_000;

/// Clamp an unbounded integer into the `i64` range.
pub open spec fn sat64(x: int) -> int {
    if x > i64::MAX as int {
        i64::MAX as int
    } else if x < i64::MIN as int {
        i64::MIN as int
    } else {
        x
    }
}

/// Division truncating toward zero (the behaviour of `/` on machine
/// integers), defined for positive divisors.
pub open spec fn div_tz(a: int, b: int) -> int
    recommends
        b > 0,
{
    if a >= 0 {
        a / b
    } else {
        -((-a) / b)
    }
}

/// Clamp `x` into `[lo, hi]`.
pub open spec fn clamp(x: int, lo: int, hi: int) -> int
    recommends
        lo <= hi,
{
    if x < lo {
        lo
    } else if x > hi {
        hi
    } else {
        x
    }
}

/// Saturate an `i128` intermediate into the `i64` range.
pub fn sat_from_i128(x: i128) -> (r: i64)
    ensures
        r as int == sat64(x as int),
{
    if x > i64::MAX as i128 {
        i64::MAX
    } else if x < i64::MIN as i128 {
        i64::MIN
    } else {
        x as i64
    }
}

/// Saturating `i64` addition.
pub fn add_sat(a: i64, b: i64) -> (r: i64)
    ensures
        r as int == sat64(a + b),
{
    sat_from_i128(a as i128 + b as i128)
}

/// Saturating `i64` subtraction.
pub fn sub_sat(a: i64, b: i64) -> (r: i64)
    ensures
        r as int == sat64(a - b),
{
    sat_from_i128(a as i128 - b as i128)
}

/// Saturating `i64` multiplication.
pub fn mul_sat(a: i64, b: i64) -> (r: i64)
    ensures
        r as int == sat64(a * b),
{
    proof {
        lemma_i64_product_fits(a as int, b as int);
    }
    sat_from_i128((a as i128) * (b as i128))
}

/// Saturating negation.
pub fn neg_sat(a: i64) -> (r: i64)
    ensures
        r as int == sat64(-a),
{
    sat_from_i128(-(a as i128))
}

proof fn lemma_i64_product_fits(a: int, b: int)
    requires
        i64::MIN <= a <= i64::MAX,
        i64::MIN <= b <= i64::MAX,
    ensures
        i128::MIN < a * b <= i128::MAX,
{
    assert(i128::MIN < a * b <= i128::MAX) by (nonlinear_arith)
        requires
            -0x8000_0000_0000_0000 <= a <= 0x7fff_ffff_ffff_ffff,
            -0x8000_0000_0000_0000 <= b <= 0x7fff_ffff_ffff_ffff,
    ;
}

/// Truncating division of an `i128` by a positive `i128`, saturated into the
/// `i64` range.
pub fn div_sat_i128(p: i128, q: i128) -> (r: i64)
    requires
        q > 0,
        p != i128::MIN,
    ensures
        r as int == sat64(div_tz(p as int, q as int)),
{
    let m: u128 = if p >= 0 {
        p as u128
    } else {
        (-p) as u128
    };
    let mq: u128 = m / (q as u128);
    proof {
        if p >= 0 {
            lemma_div_pos_is_pos(p as int, q as int);
        } else {
            lemma_div_pos_is_pos(-(p as int), q as int);
        }
    }
    if p >= 0 {
        if mq > i64::MAX as u128 {
            i64::MAX
        } else {
            mq as i64
        }
    } else {
        if mq >= 0x8000_0000_0000_0000u128 {
            i64::MIN
        } else {
            -(mq as i64)
        }
    }
}

/// Truncating division of an `i64` by a positive `i64`; the quotient always
/// fits, no saturation happens.
pub fn div_trunc(a: i64, b: i64) -> (r: i64)
    requires
        b > 0,
    ensures
        r as int == div_tz(a as int, b as int),
{
    proof {
        lemma_div_tz_bounded(a as int, b as int);
    }
    div_sat_i128(a as i128, b as i128)
}

/// The truncating quotient of an `i64` by a positive divisor never leaves the
/// `i64` range.
pub proof fn lemma_div_tz_bounded(a: int, b: int)
    requires
        i64::MIN <= a <= i64::MAX,
        b > 0,
    ensures
        i64::MIN <= div_tz(a, b) <= i64::MAX,
        sat64(div_tz(a, b)) == div_tz(a, b),
{
    if a >= 0 {
        lemma_div_pos_is_pos(a, b);
        lemma_div_nonincreasing(a, b);
    } else {
        lemma_div_pos_is_pos(-a, b);
        lemma_div_nonincreasing(-a, b);
    }
}

/// `a * b / d` with an exact `i128` product, truncating division and `i64`
/// saturation.
pub fn mul_div_sat(a: i64, b: i64, d: u64) -> (r: i64)
    requires
        d > 0,
    ensures
        r as int == sat64(div_tz(a * b, d as int)),
{
    proof {
        lemma_i64_product_fits(a as int, b as int);
    }
    div_sat_i128((a as i128) * (b as i128), d as i128)
}

/// The floor of the square root: the unique `r >= 0` with
/// `r * r <= n < (r + 1) * (r + 1)`.
pub open spec fn sqrt_floor(n: int) -> int
    recommends
        n >= 0,
{
    choose|r: int| 0 <= r && #[trigger] (r * r) <= n && n < (r + 1) * (r + 1)
}

/// Any witness of the square-root property is the value of `sqrt_floor`.
pub proof fn lemma_sqrt_floor_is(n: int, r: int)
    requires
        0 <= r,
        r * r <= n,
        n < (r + 1) * (r + 1),
    ensures
        sqrt_floor(n) == r,
{
    assert(exists|x: int| 0 <= x && #[trigger] (x * x) <= n && n < (x + 1) * (x + 1)) by {
        assert(0 <= r && r * r <= n && n < (r + 1) * (r + 1));
    }
    let c = sqrt_floor(n);
    assert(0 <= c && c * c <= n && n < (c + 1) * (c + 1));
    if c < r {
        assert((c + 1) * (c + 1) <= r * r) by (nonlinear_arith)
            requires
                0 <= c,
                c < r,
        ;
        assert(false);
    }
    if r < c {
        assert((r + 1) * (r + 1) <= c * c) by (nonlinear_arith)
            requires
                0 <= r,
                r < c,
        ;
        assert(false);
    }
}

/// `sqrt_floor` is defined by choice; this shows a witness always exists, so
/// its defining property may be used for any nonnegative argument.
pub proof fn lemma_sqrt_floor_props(n: int)
    requires
        n >= 0,
    ensures
        0 <= sqrt_floor(n),
        sqrt_floor(n) * sqrt_floor(n) <= n,
        n < (sqrt_floor(n) + 1) * (sqrt_floor(n) + 1),
    decreases n,
{
    if n == 0 {
        lemma_sqrt_floor_is(0, 0);
    } else {
        lemma_sqrt_floor_props(n - 1);
        let r = sqrt_floor(n - 1);
        if (r + 1) * (r + 1) <= n {
            assert((r + 1) * (r + 1) == n);
            assert(n < ((r + 1) + 1) * ((r + 1) + 1)) by (nonlinear_arith)
                requires
                    n == (r + 1) * (r + 1),
                    r >= 0,
            ;
            lemma_sqrt_floor_is(n, r + 1);
        } else {
            lemma_sqrt_floor_is(n, r);
        }
    }
}

pub const TWO_POW_64: u128 = 0x1_0000_0000_0000_0000;

/// Floor square root of a `u128`, by binary search on the answer.
pub fn isqrt_u128(n: u128) -> (r: u64)
    ensures
        r as int == sqrt_floor(n as int),
{
    let mut lo: u64 = 0;
    let mut hi: u128 = TWO_POW_64;
    proof {
        assert((TWO_POW_64 as int) * (TWO_POW_64 as int) > u128::MAX as int) by (nonlinear_arith);
    }
    while (lo as u128) + 1 < hi
        invariant
            (lo as int) < hi as int,
            hi as int <= TWO_POW_64 as int,
            (lo as int) * (lo as int) <= n as int,
            (n as int) < (hi as int) * (hi as int),
        decreases hi as int - lo as int,
    {
        let mid: u128 = ((lo as u128) + hi) / 2;
        proof {
            assert(lo as int + 1 < hi as int);
            assert(mid as int == (lo as int + hi as int) / 2);
            assert(lo as int + 1 <= (lo as int + hi as int) / 2) by (nonlinear_arith)
                requires
                    lo as int + 2 <= hi as int,
            ;
            assert((lo as int + hi as int) / 2 < hi as int) by (nonlinear_arith)
                requires
                    (lo as int) < hi as int,
            ;
            assert((mid as int) * (mid as int) <= u128::MAX as int) by (nonlinear_arith)
                requires
                    0 <= mid as int,
                    mid as int <= 0xffff_ffff_ffff_ffff,
            ;
        }
        if mid * mid <= n {
            lo = mid as u64;
        } else {
            hi = mid;
        }
    }
    proof {
        assert(hi as int == lo as int + 1);
        lemma_sqrt_floor_is(n as int, lo as int);
    }
    lo
}

/// A fractional coefficient `num / den` with a positive denominator, used for
/// restitution, damping, drag and attraction strengths.
#[derive(Clone, Copy, PartialEq, Eq, Structural, Debug)]
pub struct Ratio {
    pub num: i64,
    pub den: i64,
}

impl Ratio {
    /// Well-formed: bounded numerator, positive bounded denominator.
    pub open spec fn wf(self) -> bool {
        0 < self.den <= LIMIT && -LIMIT <= self.num <= LIMIT
    }

    /// The exact (unsaturated) value of `x * num / den`.
    pub open spec fn spec_apply(self, x: int) -> int {
        div_tz(x * self.num, self.den as int)
    }

    /// Construct a coefficient; malformed parameters are rejected up front.
    pub fn new(num: i64, den: i64) -> (r: Ratio)
        requires
            0 < den <= LIMIT,
            -LIMIT <= num <= LIMIT,
        ensures
            r == (Ratio { num, den }),
            r.wf(),
    {
        Ratio { num, den }
    }

    /// `x * num / den`, truncating, saturated into `i64`.
    pub fn scale(self, x: i64) -> (r: i64)
        requires
            self.wf(),
        ensures
            r as int == sat64(self.spec_apply(x as int)),
    {
        mul_div_sat(x, self.num, self.den as u64)
    }
}

} // verus!
