//! A random walker: a point nudged by a bounded random step each tick,
//! optionally chasing a target one unit at a time.

use vstd::prelude::*;

verus! {

use rand::rngs::SmallRng;
use crate::num::{sat64, add_sat};
use crate::rng::random_range_i64;

/// The largest step a single random update may take, per axis.
pub const WALKER_STEP: i64 = 1;

#[derive(Clone, Copy, PartialEq, Eq, Structural, Debug)]
pub struct Walker {
    pub x: i64,
    pub y: i64,
}

impl Walker {
    /// A walker starts at the origin until placed.
    pub fn new() -> (w: Walker)
        ensures
            w == (Walker { x: 0, y: 0 }),
    {
        Walker { x: 0, y: 0 }
    }

    pub fn set_position(&mut self, x: i64, y: i64)
        ensures
            *final(self) == (Walker { x, y }),
    {
        self.x = x;
        self.y = y;
    }

    /// Move by an injected step of at most one unit per axis.
    pub fn update(&mut self, dx: i64, dy: i64)
        requires
            -WALKER_STEP <= dx <= WALKER_STEP,
            -WALKER_STEP <= dy <= WALKER_STEP,
        ensures
            final(self).x as int == sat64(old(self).x + dx),
            final(self).y as int == sat64(old(self).y + dy),
    {
        self.x = add_sat(self.x, dx);
        self.y = add_sat(self.y, dy);
    }

    /// The per-axis unit step toward a target coordinate.
    pub open spec fn spec_step_toward(p: i64, target: i64) -> int {
        if target > p {
            1
        } else if target < p {
            -1
        } else {
            0
        }
    }

    /// Move one unit per axis toward a target (the pointer-chasing branch of
    /// an update).
    pub fn step_toward(&mut self, tx: i64, ty: i64)
        ensures
            final(self).x as int == sat64(
                old(self).x + Walker::spec_step_toward(old(self).x, tx),
            ),
            final(self).y as int == sat64(
                old(self).y + Walker::spec_step_toward(old(self).y, ty),
            ),
    {
        let dx: i64 = if tx > self.x {
            1
        } else if tx < self.x {
            -1
        } else {
            0
        };
        let dy: i64 = if ty > self.y {
            1
        } else if ty < self.y {
            -1
        } else {
            0
        };
        self.update(dx, dy);
    }

    /// One random step from the injected generator: whatever was drawn, each
    /// axis moves by at most one unit.
    pub fn update_random(&mut self, rng: &mut SmallRng)
        ensures
            exists|dx: i64, dy: i64|
                {
                    &&& -WALKER_STEP <= dx <= WALKER_STEP
                    &&& -WALKER_STEP <= dy <= WALKER_STEP
                    &&& final(self).x as int == #[trigger] sat64(old(self).x + dx)
                    &&& final(self).y as int == #[trigger] sat64(old(self).y + dy)
                },
    {
        let dx = random_range_i64(rng, -WALKER_STEP, WALKER_STEP + 1);
        let dy = random_range_i64(rng, -WALKER_STEP, WALKER_STEP + 1);
        self.update(dx, dy);
    }
}

} // verus!
