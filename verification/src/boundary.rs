//! Boundary policies: what happens when an entity's position leaves the
//! visible extent `[0, extent]` on either axis.
//!
//! Both axes are corrected independently in the same tick; the corrections
//! are axis-local, so no ordering between them matters.

use vstd::prelude::*;

verus! {

use vstd::arithmetic::div_mod::lemma_div_pos_is_pos;
use crate::num::{sat64, clamp, Ratio};
use crate::vec2::Vec2;
use crate::entity::Entity;

/// `p` lies outside `[0, ext]`.
pub open spec fn out_of_range(p: int, ext: int) -> bool {
    p < 0 || p > ext
}

/// The velocity of a crossed axis after a bounce: negated and scaled by the
/// restitution coefficient (saturating at each step).
pub open spec fn spec_bounce_vel(v: i64, restitution: Ratio) -> int {
    sat64(-sat64(restitution.spec_apply(v as int)))
}

#[derive(Clone, Copy, PartialEq, Eq, Structural, Debug)]
pub enum Boundary {
    /// A component beyond an edge jumps to the opposite edge; the velocity is
    /// unchanged.
    Wrap { extent: Vec2 },
    /// A component beyond an edge is clamped back in; the velocity on the
    /// crossed axis is negated and scaled by `restitution` (which may exceed
    /// one: a deliberate energy-gaining configuration).
    Bounce { extent: Vec2, restitution: Ratio },
    /// Like `Bounce`, but the crossed axis's pending force is also dropped,
    /// so no force re-applies against the same wall within the same tick.
    ReflectAndDamp { extent: Vec2, restitution: Ratio },
}

impl Boundary {
    pub open spec fn spec_extent(self) -> Vec2 {
        match self {
            Boundary::Wrap { extent } => extent,
            Boundary::Bounce { extent, .. } => extent,
            Boundary::ReflectAndDamp { extent, .. } => extent,
        }
    }

    pub open spec fn wf(self) -> bool {
        match self {
            Boundary::Wrap { extent } => 0 <= extent.x && 0 <= extent.y,
            Boundary::Bounce { extent, restitution } => 0 <= extent.x && 0 <= extent.y
                && restitution.wf() && restitution.num >= 0,
            Boundary::ReflectAndDamp { extent, restitution } => 0 <= extent.x && 0 <= extent.y
                && restitution.wf() && restitution.num >= 0,
        }
    }

    pub open spec fn spec_apply(self, e: Entity) -> Entity {
        match self {
            Boundary::Wrap { extent } => {
                let px = if e.position.x > extent.x {
                    0
                } else if e.position.x < 0 {
                    extent.x
                } else {
                    e.position.x
                };
                let py = if e.position.y > extent.y {
                    0
                } else if e.position.y < 0 {
                    extent.y
                } else {
                    e.position.y
                };
                Entity { position: Vec2 { x: px, y: py }, ..e }
            },
            Boundary::Bounce { extent, restitution } => {
                let cx = out_of_range(e.position.x as int, extent.x as int);
                let cy = out_of_range(e.position.y as int, extent.y as int);
                Entity {
                    position: Vec2 {
                        x: clamp(e.position.x as int, 0, extent.x as int) as i64,
                        y: clamp(e.position.y as int, 0, extent.y as int) as i64,
                    },
                    velocity: Vec2 {
                        x: if cx {
                            spec_bounce_vel(e.velocity.x, restitution) as i64
                        } else {
                            e.velocity.x
                        },
                        y: if cy {
                            spec_bounce_vel(e.velocity.y, restitution) as i64
                        } else {
                            e.velocity.y
                        },
                    },
                    ..e
                }
            },
            Boundary::ReflectAndDamp { extent, restitution } => {
                let cx = out_of_range(e.position.x as int, extent.x as int);
                let cy = out_of_range(e.position.y as int, extent.y as int);
                Entity {
                    position: Vec2 {
                        x: clamp(e.position.x as int, 0, extent.x as int) as i64,
                        y: clamp(e.position.y as int, 0, extent.y as int) as i64,
                    },
                    velocity: Vec2 {
                        x: if cx {
                            spec_bounce_vel(e.velocity.x, restitution) as i64
                        } else {
                            e.velocity.x
                        },
                        y: if cy {
                            spec_bounce_vel(e.velocity.y, restitution) as i64
                        } else {
                            e.velocity.y
                        },
                    },
                    accumulator: Vec2 {
                        x: if cx {
                            0
                        } else {
                            e.accumulator.x
                        },
                        y: if cy {
                            0
                        } else {
                            e.accumulator.y
                        },
                    },
                    ..e
                }
            },
        }
    }

    /// Correct an entity that has left the extent, per this policy.
    pub fn apply(&self, e: &mut Entity)
        requires
            self.wf(),
        ensures
            *final(e) == self.spec_apply(*old(e)),
    {
        match self {
            Boundary::Wrap { extent } => {
                if e.position.x > extent.x {
                    e.position.x = 0;
                } else if e.position.x < 0 {
                    e.position.x = extent.x;
                }
                if e.position.y > extent.y {
                    e.position.y = 0;
                } else if e.position.y < 0 {
                    e.position.y = extent.y;
                }
            },
            Boundary::Bounce { extent, restitution } => {
                if e.position.x > extent.x || e.position.x < 0 {
                    e.position.x = if e.position.x < 0 {
                        0
                    } else {
                        extent.x
                    };
                    e.velocity.x = bounce_vel(e.velocity.x, *restitution);
                }
                if e.position.y > extent.y || e.position.y < 0 {
                    e.position.y = if e.position.y < 0 {
                        0
                    } else {
                        extent.y
                    };
                    e.velocity.y = bounce_vel(e.velocity.y, *restitution);
                }
            },
            Boundary::ReflectAndDamp { extent, restitution } => {
                if e.position.x > extent.x || e.position.x < 0 {
                    e.position.x = if e.position.x < 0 {
                        0
                    } else {
                        extent.x
                    };
                    e.velocity.x = bounce_vel(e.velocity.x, *restitution);
                    e.accumulator.x = 0;
                }
                if e.position.y > extent.y || e.position.y < 0 {
                    e.position.y = if e.position.y < 0 {
                        0
                    } else {
                        extent.y
                    };
                    e.velocity.y = bounce_vel(e.velocity.y, *restitution);
                    e.accumulator.y = 0;
                }
            },
        }
    }
}

fn bounce_vel(v: i64, restitution: Ratio) -> (r: i64)
    requires
        restitution.wf(),
    ensures
        r as int == spec_bounce_vel(v, restitution),
{
    crate::num::neg_sat(restitution.scale(v))
}

/// A `Bounce` boundary flips the sign of the crossed axis's velocity and
/// scales its magnitude by the restitution coefficient, exactly once per
/// crossing; the other axis, the accumulator and the mass are untouched, and
/// an axis inside the extent keeps position and velocity.
pub proof fn lemma_bounce_reflects(extent: Vec2, restitution: Ratio, e: Entity)
    requires
        0 <= extent.x,
        0 <= extent.y,
        restitution.wf(),
        restitution.num >= 0,
    ensures
        ({
            let b = Boundary::Bounce { extent, restitution };
            let a = b.spec_apply(e);
            &&& out_of_range(e.position.x as int, extent.x as int) ==> {
                &&& a.velocity.x as int == spec_bounce_vel(e.velocity.x, restitution)
                &&& (e.velocity.x >= 0 ==> a.velocity.x <= 0)
                &&& (e.velocity.x <= 0 ==> a.velocity.x >= 0)
            }
            &&& !out_of_range(e.position.x as int, extent.x as int) ==> {
                &&& a.velocity.x == e.velocity.x
                &&& a.position.x == e.position.x
            }
            &&& out_of_range(e.position.y as int, extent.y as int) ==> {
                &&& a.velocity.y as int == spec_bounce_vel(e.velocity.y, restitution)
                &&& (e.velocity.y >= 0 ==> a.velocity.y <= 0)
                &&& (e.velocity.y <= 0 ==> a.velocity.y >= 0)
            }
            &&& !out_of_range(e.position.y as int, extent.y as int) ==> {
                &&& a.velocity.y == e.velocity.y
                &&& a.position.y == e.position.y
            }
            &&& a.position.x as int == clamp(e.position.x as int, 0, extent.x as int)
            &&& a.position.y as int == clamp(e.position.y as int, 0, extent.y as int)
            &&& a.accumulator == e.accumulator
            &&& a.mass == e.mass
        }),
{
    lemma_bounce_vel_sign(e.velocity.x, restitution);
    lemma_bounce_vel_sign(e.velocity.y, restitution);
}

/// A bounced velocity opposes the incoming one (for a nonnegative
/// restitution coefficient).
pub proof fn lemma_bounce_vel_sign(v: i64, restitution: Ratio)
    requires
        restitution.wf(),
        restitution.num >= 0,
    ensures
        v >= 0 ==> spec_bounce_vel(v, restitution) <= 0,
        v <= 0 ==> spec_bounce_vel(v, restitution) >= 0,
{
    if v >= 0 {
        assert(v * restitution.num >= 0) by (nonlinear_arith)
            requires
                v >= 0,
                restitution.num >= 0,
        ;
        lemma_div_pos_is_pos(v * restitution.num, restitution.den as int);
    } else {
        assert(v * restitution.num <= 0) by (nonlinear_arith)
            requires
                v <= 0,
                restitution.num >= 0,
        ;
        lemma_div_pos_is_pos(-(v * restitution.num), restitution.den as int);
    }
}

} // verus!
