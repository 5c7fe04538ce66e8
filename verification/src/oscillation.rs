//! Oscillating and angular motion: phase oscillators, travelling waves, a
//! drivable ship and a spring-tethered bob.
//!
//! Angles are fixed-point angle units with `TURN_UNITS` per full turn. The
//! kernel only does the phase bookkeeping; mapping a phase to a coordinate
//! (sine, cosine) is the renderer's trigonometry, outside the kernel.

use vstd::prelude::*;

verus! {

use crate::num::{sat64, div_tz, add_sat, div_trunc, Ratio, LIMIT};
use crate::vec2::Vec2;
use crate::forces::{spec_spring_force, spring_force};

/// One full turn, in angle units.
pub const TURN_UNITS: i64 = 360_000;

/// Horizontal spacing between the nodes of a wave.
pub const WAVE_SPACING: i64 = 8;

/// The thrust magnitude a ship's booster applies along its heading.
pub const SHIP_THRUST: i64 = 3;

/// A pair of phase accumulators with per-axis angular velocity; `amplitude`
/// is carried for the renderer, which maps each phase through sine.
#[derive(Clone, Copy, PartialEq, Eq, Structural, Debug)]
pub struct Oscillator {
    pub angle: Vec2,
    pub velocity: Vec2,
    pub amplitude: Vec2,
}

impl Oscillator {
    pub fn new(velocity: Vec2, amplitude: Vec2) -> (o: Oscillator)
        ensures
            o == (Oscillator { angle: Vec2::spec_zero(), velocity, amplitude }),
    {
        Oscillator { angle: Vec2::zero(), velocity, amplitude }
    }

    /// Advance both phases by the angular velocity.
    pub fn update(&mut self)
        ensures
            *final(self) == (Oscillator {
                angle: old(self).angle.spec_add(old(self).velocity),
                ..*old(self)
            }),
    {
        self.angle = self.angle.add(self.velocity);
    }
}

/// The phase of node `i` of a wave: the base phase advanced `i` times by the
/// per-node increment (saturating).
pub open spec fn spec_wave_phase(theta: i64, dx: i64, i: nat) -> int
    decreases i,
{
    if i == 0 {
        theta as int
    } else {
        sat64(spec_wave_phase(theta, dx, (i - 1) as nat) + dx)
    }
}

/// A travelling wave: a row of nodes holding one phase each. Every tick the
/// base phase advances by `rate` and node `i` takes the base phase advanced
/// `i` times by `dx`.
#[derive(Debug)]
pub struct Wave {
    pub origin: Vec2,
    pub amplitude: i64,
    pub rate: i64,
    pub dx: i64,
    pub theta: i64,
    pub phases: Vec<i64>,
}

impl Wave {
    /// A wave of `node_count` nodes whose phase advances one full turn every
    /// `period` nodes along the row.
    pub fn new(origin: Vec2, node_count: usize, amplitude: i64, period: i64, rate: i64) -> (w:
        Wave)
        requires
            period > 0,
        ensures
            w.origin == origin,
            w.amplitude == amplitude,
            w.rate == rate,
            w.dx as int == div_tz(TURN_UNITS * WAVE_SPACING, period as int),
            w.theta == 0,
            w.phases@.len() == node_count,
            forall|i: int| 0 <= i < node_count ==> w.phases@[i] == 0,
    {
        let dx = div_trunc(TURN_UNITS * WAVE_SPACING, period);
        let phases = vec![0i64; node_count];
        Wave { origin, amplitude, rate, dx, theta: 0, phases }
    }

    /// Advance the base phase by `rate` and refill every node's phase.
    pub fn update(&mut self)
        ensures
            final(self).theta as int == sat64(old(self).theta + old(self).rate),
            final(self).phases@.len() == old(self).phases@.len(),
            forall|i: int|
                0 <= i < old(self).phases@.len() ==> final(self).phases@[i] as int
                    == spec_wave_phase(final(self).theta, old(self).dx, i as nat),
            final(self).origin == old(self).origin,
            final(self).amplitude == old(self).amplitude,
            final(self).rate == old(self).rate,
            final(self).dx == old(self).dx,
    {
        self.theta = add_sat(self.theta, self.rate);
        let n = self.phases.len();
        let mut x = self.theta;
        let mut i: usize = 0;
        while i < n
            invariant
                n == self.phases@.len(),
                i <= n,
                x as int == spec_wave_phase(self.theta, self.dx, i as nat),
                forall|j: int|
                    0 <= j < i ==> self.phases@[j] as int == spec_wave_phase(
                        self.theta,
                        self.dx,
                        j as nat,
                    ),
                self.origin == old(self).origin,
                self.amplitude == old(self).amplitude,
                self.rate == old(self).rate,
                self.dx == old(self).dx,
                self.theta as int == sat64(old(self).theta + old(self).rate),
            decreases n - i,
        {
            self.phases[i] = x;
            x = add_sat(x, self.dx);
            i = i + 1;
        }
    }
}

/// A drivable ship of unit mass: forces accumulate directly, the velocity is
/// damped and capped at a top speed, and the heading is turned by the
/// caller. `thrust` takes the heading's direction vector from the caller,
/// since turning an angle into a direction is the renderer's trigonometry.
#[derive(Clone, Copy, PartialEq, Eq, Structural, Debug)]
pub struct Spaceship {
    pub location: Vec2,
    pub velocity: Vec2,
    pub accumulator: Vec2,
    pub heading: i64,
    pub damping: Ratio,
    pub top_speed: i64,
}

impl Spaceship {
    pub open spec fn wf(self) -> bool {
        self.damping.wf() && self.top_speed >= 0
    }

    pub fn new(location: Vec2, damping: Ratio, top_speed: i64) -> (s: Spaceship)
        requires
            damping.wf(),
            top_speed >= 0,
        ensures
            s == (Spaceship {
                location,
                velocity: Vec2::spec_zero(),
                accumulator: Vec2::spec_zero(),
                heading: 0,
                damping,
                top_speed,
            }),
            s.wf(),
    {
        Spaceship {
            location,
            velocity: Vec2::zero(),
            accumulator: Vec2::zero(),
            heading: 0,
            damping,
            top_speed,
        }
    }

    /// Forces act on the ship directly (unit mass).
    pub fn apply_force(&mut self, force: Vec2)
        ensures
            *final(self) == (Spaceship {
                accumulator: old(self).accumulator.spec_add(force),
                ..*old(self)
            }),
    {
        self.accumulator = self.accumulator.add(force);
    }

    /// Turn the heading by an angle (in angle units).
    pub fn turn(&mut self, angle: i64)
        ensures
            *final(self) == (Spaceship {
                heading: sat64(old(self).heading + angle) as i64,
                ..*old(self)
            }),
    {
        self.heading = add_sat(self.heading, angle);
    }

    /// Fire the booster: a force of magnitude `SHIP_THRUST` along the given
    /// direction vector.
    pub fn thrust(&mut self, direction: Vec2)
        ensures
            *final(self) == (Spaceship {
                accumulator: old(self).accumulator.spec_add(
                    direction.spec_scaled_to(SHIP_THRUST),
                ),
                ..*old(self)
            }),
    {
        let f = direction.scaled_to(SHIP_THRUST);
        self.apply_force(f);
    }

    /// One tick: the damped sum of velocity and accumulated force, capped at
    /// the top speed, carries the location; the accumulator resets.
    pub open spec fn spec_update(self) -> Spaceship {
        let v = self.velocity.spec_add(self.accumulator);
        let vd = Vec2 {
            x: sat64(self.damping.spec_apply(v.x as int)) as i64,
            y: sat64(self.damping.spec_apply(v.y as int)) as i64,
        };
        let vl = vd.spec_limit(self.top_speed);
        Spaceship {
            location: self.location.spec_add(vl),
            velocity: vl,
            accumulator: Vec2::spec_zero(),
            ..self
        }
    }

    pub fn update(&mut self)
        requires
            old(self).wf(),
        ensures
            *final(self) == old(self).spec_update(),
            final(self).wf(),
    {
        let v = self.velocity.add(self.accumulator);
        let vd = Vec2 { x: self.damping.scale(v.x), y: self.damping.scale(v.y) };
        let vl = vd.limit(self.top_speed);
        self.velocity = vl;
        self.location = self.location.add(vl);
        self.accumulator = Vec2::zero();
    }

    /// Wrap around the extent with a buffer: a component more than `buffer`
    /// beyond an edge jumps to just beyond the opposite edge.
    pub open spec fn spec_check_edges(self, extent: Vec2, buffer: i64) -> Spaceship {
        let px = if self.location.x > extent.x + buffer {
            (-buffer) as i64
        } else if self.location.x < -buffer {
            (extent.x + buffer) as i64
        } else {
            self.location.x
        };
        let py = if self.location.y > extent.y + buffer {
            (-buffer) as i64
        } else if self.location.y < -buffer {
            (extent.y + buffer) as i64
        } else {
            self.location.y
        };
        Spaceship { location: Vec2 { x: px, y: py }, ..self }
    }

    pub fn check_edges(&mut self, extent: Vec2, buffer: i64)
        requires
            0 <= extent.x <= LIMIT,
            0 <= extent.y <= LIMIT,
            0 <= buffer <= LIMIT,
        ensures
            *final(self) == old(self).spec_check_edges(extent, buffer),
    {
        if self.location.x > extent.x + buffer {
            self.location.x = -buffer;
        } else if self.location.x < -buffer {
            self.location.x = extent.x + buffer;
        }
        if self.location.y > extent.y + buffer {
            self.location.y = -buffer;
        } else if self.location.y < -buffer {
            self.location.y = extent.y + buffer;
        }
    }
}

/// A bob on a spring: a point mass with damped velocity.
#[derive(Clone, Copy, PartialEq, Eq, Structural, Debug)]
pub struct Bob {
    pub position: Vec2,
    pub velocity: Vec2,
    pub accumulator: Vec2,
    pub mass: i64,
    pub damping: Ratio,
}

impl Bob {
    pub open spec fn wf(self) -> bool {
        0 < self.mass <= LIMIT && self.damping.wf()
    }

    pub fn new(position: Vec2, mass: i64, damping: Ratio) -> (b: Bob)
        requires
            0 < mass <= LIMIT,
            damping.wf(),
        ensures
            b == (Bob {
                position,
                velocity: Vec2::spec_zero(),
                accumulator: Vec2::spec_zero(),
                mass,
                damping,
            }),
            b.wf(),
    {
        Bob { position, velocity: Vec2::zero(), accumulator: Vec2::zero(), mass, damping }
    }

    pub fn position(&self) -> (p: Vec2)
        ensures
            p == self.position,
    {
        self.position
    }

    /// Accumulate a force; it takes effect (scaled by the mass) at `update`.
    pub fn apply_force(&mut self, force: Vec2)
        ensures
            *final(self) == (Bob { accumulator: old(self).accumulator.spec_add(force), ..*old(self) }),
    {
        self.accumulator = self.accumulator.add(force);
    }

    /// One tick: the velocity gains `accumulator / mass` and is damped, the
    /// position gains the new velocity, the accumulator resets.
    pub open spec fn spec_update(self) -> Bob {
        let dv = Vec2 {
            x: div_tz(self.accumulator.x as int, self.mass as int) as i64,
            y: div_tz(self.accumulator.y as int, self.mass as int) as i64,
        };
        let v = self.velocity.spec_add(dv);
        let vd = Vec2 {
            x: sat64(self.damping.spec_apply(v.x as int)) as i64,
            y: sat64(self.damping.spec_apply(v.y as int)) as i64,
        };
        Bob {
            position: self.position.spec_add(vd),
            velocity: vd,
            accumulator: Vec2::spec_zero(),
            ..self
        }
    }

    pub fn update(&mut self)
        requires
            old(self).wf(),
        ensures
            *final(self) == old(self).spec_update(),
            final(self).wf(),
    {
        let dv = Vec2 {
            x: div_trunc(self.accumulator.x, self.mass),
            y: div_trunc(self.accumulator.y, self.mass),
        };
        let v = self.velocity.add(dv);
        let vd = Vec2 { x: self.damping.scale(v.x), y: self.damping.scale(v.y) };
        self.velocity = vd;
        self.position = self.position.add(vd);
        self.accumulator = Vec2::zero();
    }
}

/// A spring anchored at a fixed point, connected to a bob once per tick.
#[derive(Clone, Copy, PartialEq, Eq, Structural, Debug)]
pub struct Spring {
    pub anchor: Vec2,
    pub rest_length: i64,
    pub stiffness: Ratio,
}

impl Spring {
    pub open spec fn wf(self) -> bool {
        self.stiffness.wf() && self.stiffness.num >= 0 && 0 <= self.rest_length <= LIMIT
    }

    pub fn new(anchor: Vec2, rest_length: i64, stiffness: Ratio) -> (s: Spring)
        requires
            stiffness.wf(),
            stiffness.num >= 0,
            0 <= rest_length <= LIMIT,
        ensures
            s == (Spring { anchor, rest_length, stiffness }),
            s.wf(),
    {
        Spring { anchor, rest_length, stiffness }
    }

    /// Apply the Hookean restoring force toward the rest length to the bob.
    pub fn connect(&self, bob: &mut Bob)
        requires
            self.wf(),
        ensures
            *final(bob) == (Bob {
                accumulator: old(bob).accumulator.spec_add(
                    spec_spring_force(
                        self.anchor,
                        self.rest_length,
                        self.stiffness,
                        old(bob).position,
                    ),
                ),
                ..*old(bob)
            }),
    {
        let f = spring_force(self.anchor, self.rest_length, self.stiffness, bob.position);
        bob.apply_force(f);
    }
}

} // verus!
