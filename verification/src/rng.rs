//! Injected randomness, behind trusted declarations over the `rand` crate.
//!
//! The verified kernel consumes drawn values as plain integers; these items
//! are the only place the outside generator is touched. A simulation stepped
//! from a generator seeded with `SeedableRng::seed_from_u64` is reproducible:
//! the kernel itself is a pure function of the drawn samples.

use vstd::prelude::*;

verus! {

use rand::Rng;
use rand::rngs::SmallRng;
use crate::particle::{SpawnSample, ShapeKind, ParticleSystem};

/// rand's small fast generator, opaque to the verifier; values of it are
/// only carried through to the drawing wrapper.
#[verifier::external_type_specification]
#[verifier::external_body]
pub struct ExSmallRng(SmallRng);

/// Relies on rand's `Rng::random_range` over an `i64` range: for a nonempty
/// half-open range it returns a value inside it (and panics only on an empty
/// range, which the precondition rules out). Nothing more is assumed of the
/// draw.
#[verifier::external_body]
pub(crate) fn random_range_i64(rng: &mut SmallRng, lo: i64, hi: i64) -> (r: i64)
    requires
        lo < hi,
    ensures
        lo <= r < hi,
{
    rng.random_range(lo..hi)
}

/// The length of a "unit" direction vector in integer units.
pub const DIRECTION_LEN: i64 = 1000;

/// The span the raw direction components are drawn from.
pub const DIRECTION_SPAN: i64 = 1000;

/// A random direction: two bounded draws, scaled toward length
/// `DIRECTION_LEN`. Scaling divides by the floored length of the draw, so a
/// short draw can overshoot that length by up to a factor of two; the zero
/// pair stays zero. Whatever was drawn, the result is some bounded pair
/// scaled that way.
pub fn vec2_random(rng: &mut SmallRng) -> (r: crate::vec2::Vec2)
    ensures
        exists|dx: i64, dy: i64|
            {
                &&& -DIRECTION_SPAN <= dx <= DIRECTION_SPAN
                &&& -DIRECTION_SPAN <= dy <= DIRECTION_SPAN
                &&& r == #[trigger] (crate::vec2::Vec2 { x: dx, y: dy }).spec_scaled_to(
                    DIRECTION_LEN,
                )
            },
{
    let dx = random_range_i64(rng, -DIRECTION_SPAN, DIRECTION_SPAN + 1);
    let dy = random_range_i64(rng, -DIRECTION_SPAN, DIRECTION_SPAN + 1);
    crate::vec2::Vec2::new(dx, dy).scaled_to(DIRECTION_LEN)
}

impl ParticleSystem {
    /// Draw one spawn sample from the injected generator; it always lies in
    /// this system's configured velocity ranges.
    pub fn draw_sample(&self, rng: &mut SmallRng) -> (s: SpawnSample)
        requires
            self.wf(),
        ensures
            self.sample_wf(s),
    {
        let vx = random_range_i64(rng, self.vx_min, self.vx_max + 1);
        let vy = random_range_i64(rng, self.vy_min, self.vy_max + 1);
        let t = random_range_i64(rng, 0, 3);
        let shape = if t == 0 {
            ShapeKind::Disc
        } else if t == 1 {
            ShapeKind::Quad
        } else {
            ShapeKind::Triangle
        };
        SpawnSample { vx, vy, shape }
    }

    /// Draw a full spawn batch (one sample per particle to spawn).
    pub fn draw_samples(&self, rng: &mut SmallRng) -> (samples: Vec<SpawnSample>)
        requires
            self.wf(),
        ensures
            self.samples_wf(samples@),
    {
        let mut samples: Vec<SpawnSample> = Vec::new();
        let k = self.spawn_count;
        let mut i: usize = 0;
        while i < k
            invariant
                self.wf(),
                i <= k,
                samples@.len() == i,
                forall|j: int| 0 <= j < i ==> self.sample_wf(#[trigger] samples@[j]),
            decreases k - i,
        {
            let s = self.draw_sample(rng);
            samples.push(s);
            i = i + 1;
        }
        samples
    }

    /// One system tick with the spawn batch drawn from the injected
    /// generator: whatever the generator returned, the tick is the verified
    /// `update` on some in-range batch.
    pub fn update_with_rng(&mut self, rng: &mut SmallRng)
        requires
            old(self).wf(),
        ensures
            exists|samples: Seq<SpawnSample>|
                {
                    &&& #[trigger] old(self).samples_wf(samples)
                    &&& final(self).particles@ == crate::particle::spec_tick_particles(
                        old(self).particles@,
                        old(self).decay_rate,
                        old(self).origin,
                        samples,
                    )
                },
            final(self).origin == old(self).origin,
            final(self).spawn_count == old(self).spawn_count,
            final(self).decay_rate == old(self).decay_rate,
            final(self).vx_min == old(self).vx_min,
            final(self).vx_max == old(self).vx_max,
            final(self).vy_min == old(self).vy_min,
            final(self).vy_max == old(self).vy_max,
            final(self).wf(),
    {
        let samples = self.draw_samples(rng);
        self.update(&samples);
        proof {
            assert(old(self).samples_wf(samples@));
        }
    }
}

} // verus!
