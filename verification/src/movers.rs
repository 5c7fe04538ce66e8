//! Movers, attractors, liquids and repellers: the point-mass wiring the
//! force simulations are built from, plus a simple bouncing ball.

use vstd::prelude::*;

verus! {

use crate::num::{Ratio, LIMIT, sat64, clamp};
use crate::vec2::Vec2;
use crate::entity::Entity;
use crate::forces::{
    Rect, ForceField, spec_attraction_force, attraction_force, spec_drag_force, drag_force,
};
use crate::particle::{ParticleData, ParticleSystem};

/// Distance clamp for mutual attraction between movers.
pub const MOVER_MIN_DISTANCE: i64 = 1;

pub const MOVER_MAX_DISTANCE: i64 = 27;

/// Distance clamp for a fixed attractor.
pub const ATTRACTOR_MIN_DISTANCE: i64 = 5;

pub const ATTRACTOR_MAX_DISTANCE: i64 = 25;

/// A repeller pushes with `strength * REPELLER_MASS / d²` against a unit
/// mass, with the distance floored at `REPELLER_MIN_DISTANCE` and no
/// effective ceiling.
pub const REPELLER_MASS: i64 = 10;

pub const REPELLER_MIN_DISTANCE: i64 = 5;

/// A movable point mass with its own gravitational constant for mutual
/// attraction.
#[derive(Clone, Copy, PartialEq, Eq, Structural, Debug)]
pub struct Mover {
    pub entity: Entity,
    pub strength: Ratio,
}

impl Mover {
    pub open spec fn wf(self) -> bool {
        self.entity.wf() && self.strength.wf()
    }

    /// A mover at rest at `(x, y)`.
    pub fn new(x: i64, y: i64, mass: i64, strength: Ratio) -> (m: Mover)
        requires
            0 < mass <= LIMIT,
            strength.wf(),
        ensures
            m.entity == (Entity {
                position: Vec2 { x, y },
                velocity: Vec2::spec_zero(),
                accumulator: Vec2::spec_zero(),
                mass,
            }),
            m.strength == strength,
            m.wf(),
    {
        Mover { entity: Entity::new(Vec2::new(x, y), Vec2::zero(), mass), strength }
    }

    pub fn position(&self) -> (p: Vec2)
        ensures
            p == self.entity.position,
    {
        self.entity.position
    }

    /// `position` under the name some simulations use.
    pub fn location(&self) -> (p: Vec2)
        ensures
            p == self.entity.position,
    {
        self.entity.position
    }

    pub fn velocity(&self) -> (v: Vec2)
        ensures
            v == self.entity.velocity,
    {
        self.entity.velocity
    }

    pub fn mass(&self) -> (m: i64)
        ensures
            m == self.entity.mass,
    {
        self.entity.mass
    }

    /// Accumulate a force; it takes effect at the next `update`.
    pub fn apply_force(&mut self, force: Vec2)
        ensures
            final(self).entity == old(self).entity.spec_apply_force(force),
            final(self).strength == old(self).strength,
    {
        self.entity.apply_force(force);
    }

    /// One integration tick. Boundary handling is a simulation-level
    /// `Boundary` policy, applied separately.
    pub fn update(&mut self)
        requires
            old(self).wf(),
        ensures
            final(self).entity == old(self).entity.spec_integrate(),
            final(self).strength == old(self).strength,
            final(self).wf(),
    {
        self.entity.integrate();
    }

    /// The gravitational pull of `self` on `other`, with the separation
    /// clamped into `[MOVER_MIN_DISTANCE, MOVER_MAX_DISTANCE]`.
    pub fn attract(&self, other: &Mover) -> (f: Vec2)
        requires
            self.wf(),
            other.wf(),
        ensures
            f == spec_attraction_force(
                self.entity.position,
                self.entity.mass,
                self.strength,
                MOVER_MIN_DISTANCE,
                MOVER_MAX_DISTANCE,
                other.entity.position,
                other.entity.mass,
            ),
    {
        attraction_force(
            self.entity.position,
            self.entity.mass,
            self.strength,
            MOVER_MIN_DISTANCE,
            MOVER_MAX_DISTANCE,
            other.entity.position,
            other.entity.mass,
        )
    }

    /// Whether the mover sits strictly inside a liquid's region.
    pub fn is_inside(&self, liquid: &Liquid) -> (b: bool)
        requires
            liquid.wf(),
        ensures
            b == liquid.rect.spec_contains(self.entity.position),
    {
        liquid.rect.contains(self.entity.position)
    }

    /// Accumulate the liquid's quadratic drag on this mover. Callers test
    /// `is_inside` first; drag only acts inside the region.
    pub fn apply_drag(&mut self, liquid: &Liquid)
        requires
            old(self).wf(),
            liquid.wf(),
        ensures
            final(self).entity == old(self).entity.spec_apply_force(
                spec_drag_force(liquid.drag_coeff, old(self).entity.velocity),
            ),
            final(self).strength == old(self).strength,
    {
        let f = drag_force(liquid.drag_coeff, self.entity.velocity);
        self.entity.apply_force(f);
    }
}

/// A rectangular region of liquid with a drag coefficient.
#[derive(Clone, Copy, PartialEq, Eq, Structural, Debug)]
pub struct Liquid {
    pub rect: Rect,
    pub drag_coeff: Ratio,
}

impl Liquid {
    pub open spec fn wf(self) -> bool {
        self.rect.wf() && self.drag_coeff.wf() && self.drag_coeff.num >= 0
    }

    pub fn new(rect: Rect, drag_coeff: Ratio) -> (l: Liquid)
        requires
            rect.wf(),
            drag_coeff.wf(),
            drag_coeff.num >= 0,
        ensures
            l == (Liquid { rect, drag_coeff }),
            l.wf(),
    {
        Liquid { rect, drag_coeff }
    }

    pub fn rect(&self) -> (r: Rect)
        ensures
            r == self.rect,
    {
        self.rect
    }

    pub fn drag_coeff(&self) -> (c: Ratio)
        ensures
            c == self.drag_coeff,
    {
        self.drag_coeff
    }
}

/// A fixed gravitational attractor.
#[derive(Clone, Copy, PartialEq, Eq, Structural, Debug)]
pub struct Attractor {
    pub position: Vec2,
    pub mass: i64,
    pub strength: Ratio,
}

impl Attractor {
    pub open spec fn wf(self) -> bool {
        0 < self.mass <= LIMIT && self.strength.wf()
    }

    pub fn new(x: i64, y: i64, mass: i64, strength: Ratio) -> (a: Attractor)
        requires
            0 < mass <= LIMIT,
            strength.wf(),
        ensures
            a == (Attractor { position: Vec2 { x, y }, mass, strength }),
            a.wf(),
    {
        Attractor { position: Vec2::new(x, y), mass, strength }
    }

    /// The pull on a mover, with the separation clamped into
    /// `[ATTRACTOR_MIN_DISTANCE, ATTRACTOR_MAX_DISTANCE]`.
    pub fn attract(&self, mover: &Mover) -> (f: Vec2)
        requires
            self.wf(),
            mover.wf(),
        ensures
            f == spec_attraction_force(
                self.position,
                self.mass,
                self.strength,
                ATTRACTOR_MIN_DISTANCE,
                ATTRACTOR_MAX_DISTANCE,
                mover.entity.position,
                mover.entity.mass,
            ),
    {
        attraction_force(
            self.position,
            self.mass,
            self.strength,
            ATTRACTOR_MIN_DISTANCE,
            ATTRACTOR_MAX_DISTANCE,
            mover.entity.position,
            mover.entity.mass,
        )
    }
}

/// An inverse-square repeller for particles: attraction with the strength's
/// sign flipped.
#[derive(Clone, Copy, PartialEq, Eq, Structural, Debug)]
pub struct Repeller {
    pub position: Vec2,
    pub strength: Ratio,
}

impl Repeller {
    pub open spec fn wf(self) -> bool {
        self.strength.wf() && self.strength.num >= 0
    }

    pub fn new(x: i64, y: i64, strength: Ratio) -> (r: Repeller)
        requires
            strength.wf(),
            strength.num >= 0,
        ensures
            r == (Repeller { position: Vec2 { x, y }, strength }),
            r.wf(),
    {
        Repeller { position: Vec2::new(x, y), strength }
    }

    /// The repelling field this repeller stands for.
    pub open spec fn spec_field(self) -> ForceField {
        ForceField::Attraction {
            source: self.position,
            source_mass: REPELLER_MASS,
            strength: Ratio { num: (-self.strength.num) as i64, den: self.strength.den },
            min_distance: REPELLER_MIN_DISTANCE,
            max_distance: LIMIT,
        }
    }

    /// The push on one particle.
    pub fn repel(&self, particle: &ParticleData) -> (f: Vec2)
        requires
            self.wf(),
            particle.wf(),
        ensures
            f == self.spec_field().spec_force_on(particle.entity),
    {
        let field = self.as_field();
        field.force_on(&particle.entity)
    }

    /// Materialize the repelling field (well-formed by construction).
    pub fn as_field(&self) -> (field: ForceField)
        requires
            self.wf(),
        ensures
            field == self.spec_field(),
            field.wf(),
    {
        ForceField::Attraction {
            source: self.position,
            source_mass: REPELLER_MASS,
            strength: Ratio { num: -self.strength.num, den: self.strength.den },
            min_distance: REPELLER_MIN_DISTANCE,
            max_distance: LIMIT,
        }
    }
}

impl ParticleSystem {
    /// Push every particle away from a repeller.
    pub fn apply_repeller(&mut self, repeller: &Repeller)
        requires
            old(self).wf(),
            repeller.wf(),
        ensures
            final(self).particles@.len() == old(self).particles@.len(),
            forall|i: int|
                0 <= i < old(self).particles@.len() ==> final(self).particles@[i]
                    == (ParticleData {
                    entity: old(self).particles@[i].entity.spec_apply_force(
                        repeller.spec_field().spec_force_on(old(self).particles@[i].entity),
                    ),
                    ..old(self).particles@[i]
                }),
            final(self).origin == old(self).origin,
            final(self).spawn_count == old(self).spawn_count,
            final(self).decay_rate == old(self).decay_rate,
            final(self).vx_min == old(self).vx_min,
            final(self).vx_max == old(self).vx_max,
            final(self).vy_min == old(self).vy_min,
            final(self).vy_max == old(self).vy_max,
            final(self).wf(),
    {
        let field = repeller.as_field();
        self.apply_field(&field);
    }
}

/// A bouncing ball: constant speed under the Bounce rule with restitution
/// one. A component whose new position leaves `[0, extent]` is clamped back
/// to the violated edge and its speed is negated, each axis independently.
#[derive(Clone, Copy, PartialEq, Eq, Structural, Debug)]
pub struct Ball {
    pub position: Vec2,
    pub speed: Vec2,
}

impl Ball {
    /// A ball with the default starting position and speed.
    pub fn new() -> (b: Ball)
        ensures
            b == (Ball { position: Vec2 { x: 128, y: 128 }, speed: Vec2 { x: 2, y: 3 } }),
    {
        Ball { position: Vec2::new(128, 128), speed: Vec2::new(2, 3) }
    }

    pub open spec fn spec_update(self, extent: Vec2) -> Ball {
        let p = self.position.spec_add(self.speed);
        Ball {
            position: Vec2 {
                x: clamp(p.x as int, 0, extent.x as int) as i64,
                y: clamp(p.y as int, 0, extent.y as int) as i64,
            },
            speed: Vec2 {
                x: if p.x > extent.x || p.x < 0 {
                    sat64(-self.speed.x) as i64
                } else {
                    self.speed.x
                },
                y: if p.y > extent.y || p.y < 0 {
                    sat64(-self.speed.y) as i64
                } else {
                    self.speed.y
                },
            },
        }
    }

    /// Advance one tick; each new position component that left `[0, extent]`
    /// is clamped into it and the speed on that axis is negated.
    pub fn update(&mut self, extent: Vec2)
        requires
            0 <= extent.x,
            0 <= extent.y,
        ensures
            *final(self) == old(self).spec_update(extent),
    {
        self.position = self.position.add(self.speed);
        if self.position.x > extent.x || self.position.x < 0 {
            self.speed.x = crate::num::neg_sat(self.speed.x);
            self.position.x = if self.position.x < 0 {
                0
            } else {
                extent.x
            };
        }
        if self.position.y > extent.y || self.position.y < 0 {
            self.speed.y = crate::num::neg_sat(self.speed.y);
            self.position.y = if self.position.y < 0 {
                0
            } else {
                extent.y
            };
        }
    }
}

} // verus!
