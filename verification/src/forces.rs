//! Force fields: pure functions from a target entity to a force vector.
//!
//! The closed set of field kinds — constant, inverse-square attraction (or
//! repulsion, by a negative strength), quadratic drag inside a containment
//! region, a Hookean spring, and an externally sampled wind — keeps the
//! per-tick summation allocation-free.

use vstd::prelude::*;

verus! {

use crate::num::{sat64, div_tz, clamp, Ratio, LIMIT, div_sat_i128, neg_sat, sat_from_i128};
use crate::vec2::Vec2;
use crate::entity::Entity;

/// An axis-aligned containment region (for drag fields).
#[derive(Clone, Copy, PartialEq, Eq, Structural, Debug)]
pub struct Rect {
    pub x: i64,
    pub y: i64,
    pub w: i64,
    pub h: i64,
}

impl Rect {
    pub open spec fn wf(self) -> bool {
        &&& -LIMIT <= self.x <= LIMIT
        &&& -LIMIT <= self.y <= LIMIT
        &&& 0 <= self.w <= LIMIT
        &&& 0 <= self.h <= LIMIT
    }

    pub open spec fn spec_contains(self, p: Vec2) -> bool {
        &&& self.x < p.x < self.x + self.w
        &&& self.y < p.y < self.y + self.h
    }

    /// Whether a point lies strictly inside the region.
    pub fn contains(&self, p: Vec2) -> (b: bool)
        requires
            self.wf(),
        ensures
            b == self.spec_contains(p),
    {
        self.x < p.x && p.x < self.x + self.w && self.y < p.y && p.y < self.y + self.h
    }
}

/// The inverse-square magnitude `strength * m1 * m2 / d²` at a (clamped)
/// distance `d`, truncating and saturated into `i64`.
pub open spec fn spec_attraction_mag(strength: Ratio, m1: i64, m2: i64, d: int) -> int {
    sat64(div_tz(strength.num * m1 * m2, strength.den * d * d))
}

fn attraction_mag(strength: Ratio, m1: i64, m2: i64, d: i64) -> (r: i64)
    requires
        strength.wf(),
        0 < m1 <= LIMIT,
        0 < m2 <= LIMIT,
        0 < d <= LIMIT,
    ensures
        r as int == spec_attraction_mag(strength, m1, m2, d as int),
{
    proof {
        lemma_triple_product_bounds(strength.num as int, m1 as int, m2 as int);
        lemma_triple_product_bounds(strength.den as int, d as int, d as int);
        assert(strength.den * d * d > 0) by (nonlinear_arith)
            requires
                strength.den > 0,
                d > 0,
        ;
    }
    let p: i128 = (strength.num as i128) * (m1 as i128) * (m2 as i128);
    let q: i128 = (strength.den as i128) * (d as i128) * (d as i128);
    div_sat_i128(p, q)
}

proof fn lemma_triple_product_bounds(a: int, b: int, c: int)
    requires
        -1_000_000_000 <= a <= 1_000_000_000,
        -1_000_000_000 <= b <= 1_000_000_000,
        -1_000_000_000 <= c <= 1_000_000_000,
    ensures
        i128::MIN < a * b <= i128::MAX,
        i128::MIN < a * b * c <= i128::MAX,
{
    assert(i128::MIN < a * b <= i128::MAX && i128::MIN < a * b * c <= i128::MAX)
        by (nonlinear_arith)
        requires
            -1_000_000_000 <= a <= 1_000_000_000,
            -1_000_000_000 <= b <= 1_000_000_000,
            -1_000_000_000 <= c <= 1_000_000_000,
    ;
}

/// The force an inverse-square source exerts on a target: the separation
/// vector, scaled to the magnitude at the distance clamped into
/// `[min_distance, max_distance]`. A coincident target feels no force.
pub open spec fn spec_attraction_force(
    source: Vec2,
    source_mass: i64,
    strength: Ratio,
    min_distance: i64,
    max_distance: i64,
    target_pos: Vec2,
    target_mass: i64,
) -> Vec2 {
    let diff = source.spec_sub(target_pos);
    let d = clamp(diff.spec_len(), min_distance as int, max_distance as int);
    diff.spec_scaled_to(spec_attraction_mag(strength, source_mass, target_mass, d) as i64)
}

/// Compute the inverse-square force. Shared by attraction fields, attractor
/// and repeller examples, and mutual attraction between movers.
pub fn attraction_force(
    source: Vec2,
    source_mass: i64,
    strength: Ratio,
    min_distance: i64,
    max_distance: i64,
    target_pos: Vec2,
    target_mass: i64,
) -> (f: Vec2)
    requires
        strength.wf(),
        0 < source_mass <= LIMIT,
        0 < target_mass <= LIMIT,
        0 < min_distance <= max_distance <= LIMIT,
    ensures
        f == spec_attraction_force(
            source,
            source_mass,
            strength,
            min_distance,
            max_distance,
            target_pos,
            target_mass,
        ),
{
    let diff = source.sub(target_pos);
    let l = diff.len();
    let d: i64 = if l < min_distance as u64 {
        min_distance
    } else if l > max_distance as u64 {
        max_distance
    } else {
        l as i64
    };
    let mag = attraction_mag(strength, source_mass, target_mass, d);
    diff.scaled_to(mag)
}

/// Quadratic drag magnitude: the coefficient applied to the squared speed
/// (saturated into `i64` first).
pub open spec fn spec_drag_mag(coefficient: Ratio, velocity: Vec2) -> int {
    sat64(coefficient.spec_apply(sat64(velocity.spec_sq_len())))
}

/// Drag opposes motion: the velocity scaled to minus the drag magnitude.
/// A resting target feels no drag.
pub open spec fn spec_drag_force(coefficient: Ratio, velocity: Vec2) -> Vec2 {
    velocity.spec_scaled_to(sat64(-spec_drag_mag(coefficient, velocity)) as i64)
}

pub fn drag_force(coefficient: Ratio, velocity: Vec2) -> (f: Vec2)
    requires
        coefficient.wf(),
    ensures
        f == spec_drag_force(coefficient, velocity),
{
    let sq: u128 = velocity.sq_len();
    let sq_sat: i64 = if sq > i64::MAX as u128 {
        i64::MAX
    } else {
        sq as i64
    };
    let mag = coefficient.scale(sq_sat);
    velocity.scaled_to(neg_sat(mag))
}

/// Hooke's law toward the rest length: the anchor-to-target vector scaled to
/// minus `stiffness * (|target - anchor| - rest_length)`.
pub open spec fn spec_spring_force(
    anchor: Vec2,
    rest_length: i64,
    stiffness: Ratio,
    target_pos: Vec2,
) -> Vec2 {
    let diff = target_pos.spec_sub(anchor);
    let delta = sat64(diff.spec_len() - rest_length);
    diff.spec_scaled_to(sat64(-sat64(stiffness.spec_apply(delta))) as i64)
}

pub fn spring_force(anchor: Vec2, rest_length: i64, stiffness: Ratio, target_pos: Vec2) -> (f:
    Vec2)
    requires
        stiffness.wf(),
    ensures
        f == spec_spring_force(anchor, rest_length, stiffness, target_pos),
{
    let diff = target_pos.sub(anchor);
    let l = diff.len();
    let delta = sat_from_i128(l as i128 - rest_length as i128);
    let mag = stiffness.scale(delta);
    diff.scaled_to(neg_sat(mag))
}

#[derive(Clone, Copy, PartialEq, Eq, Structural, Debug)]
pub enum ForceField {
    /// A fixed force (gravity, steady wind), independent of the target.
    Constant { force: Vec2 },
    /// Inverse-square attraction toward `source`; a negative strength
    /// numerator turns it into repulsion. The distance is clamped into
    /// `[min_distance, max_distance]` to keep the force bounded near the
    /// source.
    Attraction {
        source: Vec2,
        source_mass: i64,
        strength: Ratio,
        min_distance: i64,
        max_distance: i64,
    },
    /// Quadratic drag, applied only while the target is inside `region`.
    Drag { coefficient: Ratio, region: Rect },
    /// A spring anchored at `anchor` with the given rest length.
    Spring { anchor: Vec2, rest_length: i64, stiffness: Ratio },
    /// A time-varying vector that the host refreshes from its noise sampler;
    /// independent of the target.
    Wind { current: Vec2 },
}

impl ForceField {
    pub open spec fn wf(self) -> bool {
        match self {
            ForceField::Constant { .. } => true,
            ForceField::Attraction { source_mass, strength, min_distance, max_distance, .. } => {
                &&& 0 < source_mass <= LIMIT
                &&& strength.wf()
                &&& 0 < min_distance <= max_distance <= LIMIT
            },
            ForceField::Drag { coefficient, region } => {
                &&& coefficient.wf()
                &&& coefficient.num >= 0
                &&& region.wf()
            },
            ForceField::Spring { rest_length, stiffness, .. } => {
                &&& stiffness.wf()
                &&& stiffness.num >= 0
                &&& 0 <= rest_length <= LIMIT
            },
            ForceField::Wind { .. } => true,
        }
    }

    /// The force this field contributes to a target entity, as a pure
    /// function of the field and the target's position, velocity and mass.
    pub open spec fn spec_force_on(self, e: Entity) -> Vec2 {
        match self {
            ForceField::Constant { force } => force,
            ForceField::Attraction { source, source_mass, strength, min_distance, max_distance } =>
                spec_attraction_force(
                    source,
                    source_mass,
                    strength,
                    min_distance,
                    max_distance,
                    e.position,
                    e.mass,
                ),
            ForceField::Drag { coefficient, region } => {
                if region.spec_contains(e.position) {
                    spec_drag_force(coefficient, e.velocity)
                } else {
                    Vec2::spec_zero()
                }
            },
            ForceField::Spring { anchor, rest_length, stiffness } => spec_spring_force(
                anchor,
                rest_length,
                stiffness,
                e.position,
            ),
            ForceField::Wind { current } => current,
        }
    }

    pub fn force_on(&self, e: &Entity) -> (f: Vec2)
        requires
            self.wf(),
            e.wf(),
        ensures
            f == self.spec_force_on(*e),
    {
        match self {
            ForceField::Constant { force } => *force,
            ForceField::Attraction { source, source_mass, strength, min_distance, max_distance } =>
                attraction_force(
                *source,
                *source_mass,
                *strength,
                *min_distance,
                *max_distance,
                e.position,
                e.mass,
            ),
            ForceField::Drag { coefficient, region } => {
                if region.contains(e.position) {
                    drag_force(*coefficient, e.velocity)
                } else {
                    Vec2::zero()
                }
            },
            ForceField::Spring { anchor, rest_length, stiffness } => spring_force(
                *anchor,
                *rest_length,
                *stiffness,
                e.position,
            ),
            ForceField::Wind { current } => *current,
        }
    }
}

/// For a target whose true separation `d` already lies inside
/// `[min_distance, max_distance]`, the attraction force is the separation
/// vector scaled to exactly `strength * m1 * m2 / d²` (the inverse-square
/// closed form, truncating, saturated only at the `i64` range).
pub proof fn lemma_attraction_inverse_square(
    source: Vec2,
    source_mass: i64,
    strength: Ratio,
    min_distance: i64,
    max_distance: i64,
    e: Entity,
)
    requires
        strength.wf(),
        0 < source_mass <= LIMIT,
        0 < e.mass <= LIMIT,
        0 < min_distance <= max_distance <= LIMIT,
        min_distance <= source.spec_sub(e.position).spec_len() <= max_distance,
    ensures
        ({
            let diff = source.spec_sub(e.position);
            let d = diff.spec_len();
            let field = ForceField::Attraction {
                source,
                source_mass,
                strength,
                min_distance,
                max_distance,
            };
            field.spec_force_on(e) == diff.spec_scaled_to(
                sat64(div_tz(strength.num * source_mass * e.mass, strength.den * d * d)) as i64,
            )
        }),
{
}

/// Below `min_distance` the force is clamped: it equals the force the same
/// separation vector would feel at distance `min_distance`, so the magnitude
/// has no singularity as the separation shrinks.
pub proof fn lemma_attraction_distance_clamped(
    source: Vec2,
    source_mass: i64,
    strength: Ratio,
    min_distance: i64,
    max_distance: i64,
    e: Entity,
)
    requires
        strength.wf(),
        0 < source_mass <= LIMIT,
        0 < e.mass <= LIMIT,
        0 < min_distance <= max_distance <= LIMIT,
        source.spec_sub(e.position).spec_len() < min_distance,
    ensures
        ({
            let diff = source.spec_sub(e.position);
            let field = ForceField::Attraction {
                source,
                source_mass,
                strength,
                min_distance,
                max_distance,
            };
            field.spec_force_on(e) == diff.spec_scaled_to(
                spec_attraction_mag(strength, source_mass, e.mass, min_distance as int) as i64,
            )
        }),
{
}

/// The drag edge case: a resting target feels no drag (the zero vector is
/// scaled to zero, never a division by a zero length).
pub proof fn lemma_drag_zero_velocity(coefficient: Ratio, velocity: Vec2)
    requires
        velocity == Vec2::spec_zero(),
    ensures
        spec_drag_force(coefficient, velocity) == Vec2::spec_zero(),
{
    velocity.lemma_len_zero();
}

} // verus!
