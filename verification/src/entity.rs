//! A point mass: position, velocity, a pending-force accumulator and a mass.
//!
//! `apply_force` only adds to the accumulator — it has no effect until the
//! entity is integrated. `integrate` performs one semi-implicit Euler step
//! with an implicit timestep of one tick.

use vstd::prelude::*;

verus! {

use vstd::arithmetic::div_mod::lemma_div_basics;
use crate::num::{div_tz, sat64, clamp, LIMIT, div_trunc};
use crate::vec2::Vec2;

#[derive(Clone, Copy, PartialEq, Eq, Structural, Debug)]
pub struct Entity {
    pub position: Vec2,
    pub velocity: Vec2,
    pub accumulator: Vec2,
    pub mass: i64,
}

impl Entity {
    /// Well-formed: positive, bounded mass.
    pub open spec fn wf(self) -> bool {
        0 < self.mass <= LIMIT
    }

    /// An entity starts with an empty force accumulator.
    pub fn new(position: Vec2, velocity: Vec2, mass: i64) -> (e: Entity)
        requires
            0 < mass <= LIMIT,
        ensures
            e == (Entity { position, velocity, accumulator: Vec2::spec_zero(), mass }),
            e.wf(),
    {
        Entity { position, velocity, accumulator: Vec2::zero(), mass }
    }

    pub open spec fn spec_apply_force(self, force: Vec2) -> Entity {
        Entity { accumulator: self.accumulator.spec_add(force), ..self }
    }

    /// Add a force to the pending accumulator; position and velocity are
    /// untouched until `integrate`.
    pub fn apply_force(&mut self, force: Vec2)
        ensures
            *final(self) == old(self).spec_apply_force(force),
    {
        self.accumulator = self.accumulator.add(force);
    }

    /// One semi-implicit Euler step: the velocity gains `accumulator / mass`
    /// (componentwise, truncating), the position gains the new velocity, and
    /// the accumulator resets to zero.
    pub open spec fn spec_integrate(self) -> Entity {
        let dv = Vec2 {
            x: div_tz(self.accumulator.x as int, self.mass as int) as i64,
            y: div_tz(self.accumulator.y as int, self.mass as int) as i64,
        };
        let v = self.velocity.spec_add(dv);
        Entity {
            position: self.position.spec_add(v),
            velocity: v,
            accumulator: Vec2::spec_zero(),
            mass: self.mass,
        }
    }

    pub fn integrate(&mut self)
        requires
            old(self).wf(),
        ensures
            *final(self) == old(self).spec_integrate(),
            final(self).wf(),
    {
        let dv = Vec2 {
            x: div_trunc(self.accumulator.x, self.mass),
            y: div_trunc(self.accumulator.y, self.mass),
        };
        self.velocity = self.velocity.add(dv);
        self.position = self.position.add(self.velocity);
        self.accumulator = Vec2::zero();
    }
}

/// Angular state for oriented entities, in fixed-point angle units.
#[derive(Clone, Copy, PartialEq, Eq, Structural, Debug)]
pub struct Orientation {
    pub angle: i64,
    pub angular_velocity: i64,
}

impl Orientation {
    /// The rotation rule for oriented entities: the angular acceleration is
    /// the x-component of the linear acceleration scaled down by `gain_den`,
    /// the angular velocity is clamped into `[-max_spin, max_spin]` before
    /// the angle integrates — a deliberate choice for visually stable
    /// rotation, not a physical torque.
    pub open spec fn spec_integrate(self, linear_acc_x: i64, gain_den: i64, max_spin: i64) -> Orientation {
        let aa = div_tz(linear_acc_x as int, gain_den as int);
        let av = clamp(sat64(self.angular_velocity + aa), -max_spin as int, max_spin as int);
        Orientation { angle: sat64(self.angle + av) as i64, angular_velocity: av as i64 }
    }

    pub fn integrate(&mut self, linear_acc_x: i64, gain_den: i64, max_spin: i64)
        requires
            gain_den > 0,
            max_spin >= 0,
        ensures
            *final(self) == old(self).spec_integrate(linear_acc_x, gain_den, max_spin),
    {
        let aa = div_trunc(linear_acc_x, gain_den);
        let raw = crate::num::add_sat(self.angular_velocity, aa);
        let av = if raw > max_spin {
            max_spin
        } else if raw < -max_spin {
            -max_spin
        } else {
            raw
        };
        self.angle = crate::num::add_sat(self.angle, av);
        self.angular_velocity = av;
    }
}

/// The entity after `n` integration steps with no further forces applied.
pub open spec fn spec_integrate_n(e: Entity, n: nat) -> Entity
    decreases n,
{
    if n == 0 {
        e
    } else {
        spec_integrate_n(e, (n - 1) as nat).spec_integrate()
    }
}

/// With an empty accumulator, motion is a straight line: after `n` ticks the
/// position is exactly `initial + n * velocity` and the velocity is
/// unchanged. The bounds on the intermediate positions only rule out `i64`
/// saturation along the way.
pub proof fn lemma_uniform_motion(e: Entity, n: nat)
    requires
        e.wf(),
        e.accumulator == Vec2::spec_zero(),
        forall|k: int|
            0 <= k <= n ==> i64::MIN <= e.position.x + #[trigger] (k * e.velocity.x) <= i64::MAX,
        forall|k: int|
            0 <= k <= n ==> i64::MIN <= e.position.y + #[trigger] (k * e.velocity.y) <= i64::MAX,
    ensures
        spec_integrate_n(e, n).position.x == e.position.x + n * e.velocity.x,
        spec_integrate_n(e, n).position.y == e.position.y + n * e.velocity.y,
        spec_integrate_n(e, n).velocity == e.velocity,
        spec_integrate_n(e, n).accumulator == Vec2::spec_zero(),
        spec_integrate_n(e, n).mass == e.mass,
    decreases n,
{
    if n == 0 {
        assert(0 * e.velocity.x == 0);
        assert(0 * e.velocity.y == 0);
    } else {
        lemma_uniform_motion(e, (n - 1) as nat);
        let p = spec_integrate_n(e, (n - 1) as nat);
        lemma_div_basics(e.mass as int);
        assert(div_tz(0, e.mass as int) == 0);
        assert((n - 1) * e.velocity.x + e.velocity.x == n * e.velocity.x) by (nonlinear_arith);
        assert((n - 1) * e.velocity.y + e.velocity.y == n * e.velocity.y) by (nonlinear_arith);
        assert(i64::MIN <= e.position.x + (n - 1) * e.velocity.x <= i64::MAX);
        assert(i64::MIN <= e.position.x + n * e.velocity.x <= i64::MAX);
        assert(i64::MIN <= e.position.y + (n - 1) * e.velocity.y <= i64::MAX);
        assert(i64::MIN <= e.position.y + n * e.velocity.y <= i64::MAX);
    }
}

} // verus!
