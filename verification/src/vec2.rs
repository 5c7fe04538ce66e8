//! Immutable 2D vectors over saturating `i64` components.
//!
//! `scaled_to(m)` plays the role that "normalize, then multiply by `m`" plays
//! in a real-valued setting: it returns a vector pointing the same way whose
//! components are `v * m / |v|`, with truncating division. A vector of length
//! zero is scaled to the zero vector — the deliberate edge-case policy that
//! keeps every operation total.

use vstd::prelude::*;

verus! {

use crate::num::{
    sat64, div_tz, sqrt_floor, add_sat, sub_sat, mul_sat, neg_sat, mul_div_sat, isqrt_u128,
    lemma_sqrt_floor_is, lemma_sqrt_floor_props,
};

#[derive(Clone, Copy, PartialEq, Eq, Structural, Debug)]
pub struct Vec2 {
    pub x: i64,
    pub y: i64,
}

impl Vec2 {
    pub open spec fn spec_zero() -> Vec2 {
        Vec2 { x: 0, y: 0 }
    }

    pub fn zero() -> (r: Vec2)
        ensures
            r == Vec2::spec_zero(),
    {
        Vec2 { x: 0, y: 0 }
    }

    pub fn new(x: i64, y: i64) -> (r: Vec2)
        ensures
            r == (Vec2 { x, y }),
    {
        Vec2 { x, y }
    }

    pub open spec fn spec_add(self, o: Vec2) -> Vec2 {
        Vec2 { x: sat64(self.x + o.x) as i64, y: sat64(self.y + o.y) as i64 }
    }

    /// Componentwise saturating addition.
    pub fn add(self, o: Vec2) -> (r: Vec2)
        ensures
            r == self.spec_add(o),
    {
        Vec2 { x: add_sat(self.x, o.x), y: add_sat(self.y, o.y) }
    }

    pub open spec fn spec_sub(self, o: Vec2) -> Vec2 {
        Vec2 { x: sat64(self.x - o.x) as i64, y: sat64(self.y - o.y) as i64 }
    }

    /// Componentwise saturating subtraction.
    pub fn sub(self, o: Vec2) -> (r: Vec2)
        ensures
            r == self.spec_sub(o),
    {
        Vec2 { x: sub_sat(self.x, o.x), y: sub_sat(self.y, o.y) }
    }

    pub open spec fn spec_scale(self, k: i64) -> Vec2 {
        Vec2 { x: sat64(self.x * k) as i64, y: sat64(self.y * k) as i64 }
    }

    /// Componentwise saturating scaling by an integer factor.
    pub fn scale(self, k: i64) -> (r: Vec2)
        ensures
            r == self.spec_scale(k),
    {
        Vec2 { x: mul_sat(self.x, k), y: mul_sat(self.y, k) }
    }

    pub open spec fn spec_neg(self) -> Vec2 {
        Vec2 { x: sat64(-self.x) as i64, y: sat64(-self.y) as i64 }
    }

    /// Componentwise saturating negation.
    pub fn neg(self) -> (r: Vec2)
        ensures
            r == self.spec_neg(),
    {
        Vec2 { x: neg_sat(self.x), y: neg_sat(self.y) }
    }

    /// The exact squared length; it always fits in a `u128`.
    pub open spec fn spec_sq_len(self) -> int {
        self.x * self.x + self.y * self.y
    }

    pub fn sq_len(self) -> (r: u128)
        ensures
            r as int == self.spec_sq_len(),
    {
        proof {
            assert(0 <= (self.x as int) * (self.x as int) <= 0x8000_0000_0000_0000
                * 0x8000_0000_0000_0000) by (nonlinear_arith)
                requires
                    -0x8000_0000_0000_0000 <= self.x as int <= 0x7fff_ffff_ffff_ffff,
            ;
            assert(0 <= (self.y as int) * (self.y as int) <= 0x8000_0000_0000_0000
                * 0x8000_0000_0000_0000) by (nonlinear_arith)
                requires
                    -0x8000_0000_0000_0000 <= self.y as int <= 0x7fff_ffff_ffff_ffff,
            ;
        }
        let xx: i128 = (self.x as i128) * (self.x as i128);
        let yy: i128 = (self.y as i128) * (self.y as i128);
        (xx as u128) + (yy as u128)
    }

    /// The floor of the Euclidean length.
    pub open spec fn spec_len(self) -> int {
        sqrt_floor(self.spec_sq_len())
    }

    pub fn len(self) -> (r: u64)
        ensures
            r as int == self.spec_len(),
    {
        isqrt_u128(self.sq_len())
    }

    pub open spec fn spec_scaled_to(self, m: i64) -> Vec2 {
        let l = self.spec_len();
        if l == 0 {
            Vec2::spec_zero()
        } else {
            Vec2 {
                x: sat64(div_tz(self.x * m, l)) as i64,
                y: sat64(div_tz(self.y * m, l)) as i64,
            }
        }
    }

    /// A vector along `self` whose components are `self * m / |self|`
    /// (truncating): the integer counterpart of "normalize and scale by `m`".
    /// The zero vector stays zero.
    pub fn scaled_to(self, m: i64) -> (r: Vec2)
        ensures
            r == self.spec_scaled_to(m),
    {
        let l = self.len();
        if l == 0 {
            Vec2::zero()
        } else {
            Vec2 { x: mul_div_sat(self.x, m, l), y: mul_div_sat(self.y, m, l) }
        }
    }

    pub open spec fn spec_limit(self, max: i64) -> Vec2 {
        if self.spec_len() <= max {
            self
        } else {
            self.spec_scaled_to(max)
        }
    }

    /// Unchanged when no longer than `max`, otherwise scaled down to length
    /// (at most) `max`.
    pub fn limit(self, max: i64) -> (r: Vec2)
        requires
            max >= 0,
        ensures
            r == self.spec_limit(max),
    {
        let l = self.len();
        if l <= max as u64 {
            self
        } else {
            self.scaled_to(max)
        }
    }

    /// Vector addition is commutative: the order in which two force
    /// contributions combine does not affect their sum.
    pub proof fn lemma_add_commutes(a: Vec2, b: Vec2)
        ensures
            a.spec_add(b) == b.spec_add(a),
    {
    }

    /// A vector has length zero exactly when it is the zero vector.
    pub proof fn lemma_len_zero(self)
        ensures
            self.spec_len() == 0 <==> self == Vec2::spec_zero(),
    {
        if self == Vec2::spec_zero() {
            lemma_sqrt_floor_is(0, 0);
        } else {
            assert(self.spec_sq_len() >= 1) by (nonlinear_arith)
                requires
                    self.x != 0 || self.y != 0,
            ;
            lemma_sqrt_floor_props(self.spec_sq_len());
            assert(self.spec_len() != 0);
        }
    }
}

} // verus!
