//! Particle systems: bags of short-lived entities with randomized spawn and
//! linear life decay.
//!
//! Per tick a system integrates every particle (under whatever forces the
//! owning simulation applied to it), decays every life by the fixed rate,
//! removes the dead immediately, and then spawns a fixed number of fresh
//! particles at its origin with injected velocity draws. Spawn and cull are
//! decoupled: a system may hold zero particles and still be valid.

use vstd::prelude::*;

verus! {

use crate::num::LIMIT;
use crate::vec2::Vec2;
use crate::entity::Entity;
use crate::forces::ForceField;

/// The life of a freshly spawned particle (fixed-point one).
pub const LIFE_FULL: i64 = 1_000_000;

/// The rendering-only shape tag carried by a particle. It never leaks into
/// force or integration logic; only the external renderer reads it.
#[derive(Clone, Copy, PartialEq, Eq, Structural, Debug)]
pub enum ShapeKind {
    Disc,
    Quad,
    Triangle,
}

/// One randomized spawn draw: an initial velocity and a shape tag.
#[derive(Clone, Copy, PartialEq, Eq, Structural, Debug)]
pub struct SpawnSample {
    pub vx: i64,
    pub vy: i64,
    pub shape: ShapeKind,
}

/// A short-lived entity together with its remaining life and shape tag.
#[derive(Clone, Copy, PartialEq, Eq, Structural, Debug)]
pub struct ParticleData {
    pub entity: Entity,
    pub life: i64,
    pub shape: ShapeKind,
}

/// The particle a sample spawns at `origin`: unit mass, full life, empty
/// accumulator, the sampled velocity and shape.
pub open spec fn spec_spawn(origin: Vec2, sample: SpawnSample) -> ParticleData {
    ParticleData {
        entity: Entity {
            position: origin,
            velocity: Vec2 { x: sample.vx, y: sample.vy },
            accumulator: Vec2::spec_zero(),
            mass: 1,
        },
        life: LIFE_FULL,
        shape: sample.shape,
    }
}

impl ParticleData {
    pub open spec fn wf(self) -> bool {
        self.entity.wf() && self.life <= LIFE_FULL
    }

    pub open spec fn spec_alive(self) -> bool {
        self.life > 0
    }

    /// Spawn a particle at `position`; particles have unit mass, so forces
    /// reach their velocity unscaled.
    pub fn new(position: Vec2, sample: SpawnSample) -> (p: ParticleData)
        ensures
            p == spec_spawn(position, sample),
            p.wf(),
            p.spec_alive(),
    {
        ParticleData {
            entity: Entity::new(position, Vec2::new(sample.vx, sample.vy), 1),
            life: LIFE_FULL,
            shape: sample.shape,
        }
    }

    /// A particle is alive while its life is positive.
    pub fn is_alive(&self) -> (b: bool)
        ensures
            b == self.spec_alive(),
    {
        self.life > 0
    }

    /// Add a force to the particle's entity; life and shape are untouched.
    pub fn apply_force(&mut self, force: Vec2)
        ensures
            *final(self) == (ParticleData {
                entity: old(self).entity.spec_apply_force(force),
                ..*old(self)
            }),
    {
        self.entity.apply_force(force);
    }

    /// One tick of a particle: integrate the entity and decay the life by the
    /// fixed rate.
    pub open spec fn spec_advance(self, decay_rate: i64) -> ParticleData {
        ParticleData {
            entity: self.entity.spec_integrate(),
            life: (self.life - decay_rate) as i64,
            shape: self.shape,
        }
    }

    pub fn update(&mut self, decay_rate: i64)
        requires
            old(self).wf(),
            old(self).spec_alive(),
            0 < decay_rate <= LIFE_FULL,
        ensures
            *final(self) == old(self).spec_advance(decay_rate),
            final(self).wf(),
    {
        self.entity.integrate();
        self.life = self.life - decay_rate;
    }
}

/// An alive well-formed particle's life strictly decreases by exactly the
/// decay rate each tick.
pub proof fn lemma_life_strictly_decreases(p: ParticleData, decay_rate: i64)
    requires
        p.wf(),
        p.spec_alive(),
        0 < decay_rate <= LIFE_FULL,
    ensures
        p.spec_advance(decay_rate).life == p.life - decay_rate,
        p.spec_advance(decay_rate).life < p.life,
{
}

/// The particles left after one tick: each advanced by one integration step
/// and one life decay, keeping exactly those still alive, in order.
pub open spec fn spec_survivors(particles: Seq<ParticleData>, decay_rate: i64) -> Seq<
    ParticleData,
>
    decreases particles.len(),
{
    if particles.len() == 0 {
        Seq::empty()
    } else {
        let rest = spec_survivors(particles.drop_last(), decay_rate);
        let p = particles.last().spec_advance(decay_rate);
        if p.spec_alive() {
            rest.push(p)
        } else {
            rest
        }
    }
}

/// The particles a batch of samples spawns at `origin`, in order.
pub open spec fn spec_spawned(origin: Vec2, samples: Seq<SpawnSample>) -> Seq<ParticleData>
    decreases samples.len(),
{
    if samples.len() == 0 {
        Seq::empty()
    } else {
        spec_spawned(origin, samples.drop_last()).push(spec_spawn(origin, samples.last()))
    }
}

/// One full system tick over the particle sequence: advance and cull, then
/// append the spawned batch.
pub open spec fn spec_tick_particles(
    particles: Seq<ParticleData>,
    decay_rate: i64,
    origin: Vec2,
    samples: Seq<SpawnSample>,
) -> Seq<ParticleData> {
    spec_survivors(particles, decay_rate) + spec_spawned(origin, samples)
}

/// Culling is immediate and exact: every survivor of a tick is alive, and
/// every advanced particle that is still alive stands among the survivors.
/// A particle is absent from the alive set the first tick its life reaches
/// zero or below, never later.
pub proof fn lemma_cull_exact(particles: Seq<ParticleData>, decay_rate: i64)
    ensures
        forall|j: int|
            0 <= j < spec_survivors(particles, decay_rate).len() ==> (#[trigger] spec_survivors(
                particles,
                decay_rate,
            )[j]).spec_alive(),
        forall|i: int|
            0 <= i < particles.len() && (#[trigger] particles[i].spec_advance(
                decay_rate,
            )).spec_alive() ==> spec_survivors(particles, decay_rate).contains(
                particles[i].spec_advance(decay_rate),
            ),
    decreases particles.len(),
{
    if particles.len() > 0 {
        lemma_cull_exact(particles.drop_last(), decay_rate);
        let rest = spec_survivors(particles.drop_last(), decay_rate);
        let s = spec_survivors(particles, decay_rate);
        assert forall|i: int|
            0 <= i < particles.len() && (#[trigger] particles[i].spec_advance(
                decay_rate,
            )).spec_alive() implies s.contains(particles[i].spec_advance(decay_rate)) by {
            let p = particles[i].spec_advance(decay_rate);
            if i < particles.len() - 1 {
                assert(particles.drop_last()[i] == particles[i]);
                assert(rest.contains(p));
                let w = choose|w: int| 0 <= w < rest.len() && rest[w] == p;
                assert(s[w] == p);
            } else {
                assert(s.last() == p);
            }
        }
    }
}

/// A bag of short-lived particles with an origin, a fixed spawn count and
/// decay rate, and the velocity ranges spawn draws come from.
#[derive(Debug)]
pub struct ParticleSystem {
    pub origin: Vec2,
    pub spawn_count: usize,
    pub decay_rate: i64,
    pub vx_min: i64,
    pub vx_max: i64,
    pub vy_min: i64,
    pub vy_max: i64,
    pub particles: Vec<ParticleData>,
}

impl ParticleSystem {
    /// Well-formed: a positive decay rate, nonempty bounded velocity ranges,
    /// and every contained particle well-formed and alive.
    pub open spec fn wf(self) -> bool {
        &&& 0 < self.decay_rate <= LIFE_FULL
        &&& -LIMIT <= self.vx_min <= self.vx_max <= LIMIT
        &&& -LIMIT <= self.vy_min <= self.vy_max <= LIMIT
        &&& forall|i: int|
            0 <= i < self.particles@.len() ==> (#[trigger] self.particles@[i]).wf()
                && self.particles@[i].spec_alive()
    }

    /// A sample lies within this system's configured velocity ranges.
    pub open spec fn sample_wf(self, s: SpawnSample) -> bool {
        self.vx_min <= s.vx <= self.vx_max && self.vy_min <= s.vy <= self.vy_max
    }

    /// A full spawn batch: one in-range sample per spawned particle.
    pub open spec fn samples_wf(self, samples: Seq<SpawnSample>) -> bool {
        samples.len() == self.spawn_count && forall|i: int|
            0 <= i < samples.len() ==> self.sample_wf(#[trigger] samples[i])
    }

    /// An empty system; malformed emission parameters are rejected up front.
    pub fn new(
        origin: Vec2,
        spawn_count: usize,
        decay_rate: i64,
        vx_min: i64,
        vx_max: i64,
        vy_min: i64,
        vy_max: i64,
    ) -> (s: ParticleSystem)
        requires
            0 < decay_rate <= LIFE_FULL,
            -LIMIT <= vx_min <= vx_max <= LIMIT,
            -LIMIT <= vy_min <= vy_max <= LIMIT,
        ensures
            s.origin == origin,
            s.spawn_count == spawn_count,
            s.decay_rate == decay_rate,
            s.vx_min == vx_min,
            s.vx_max == vx_max,
            s.vy_min == vy_min,
            s.vy_max == vy_max,
            s.particles@ == Seq::<ParticleData>::empty(),
            s.wf(),
    {
        ParticleSystem {
            origin,
            spawn_count,
            decay_rate,
            vx_min,
            vx_max,
            vy_min,
            vy_max,
            particles: Vec::new(),
        }
    }

    /// How many particles are currently alive in the system.
    pub fn len(&self) -> (n: usize)
        ensures
            n == self.particles@.len(),
    {
        self.particles.len()
    }

    /// Apply one force vector to every particle's accumulator.
    pub fn apply_force(&mut self, force: Vec2)
        ensures
            final(self).particles@.len() == old(self).particles@.len(),
            forall|i: int|
                0 <= i < old(self).particles@.len() ==> final(self).particles@[i]
                    == (ParticleData {
                    entity: old(self).particles@[i].entity.spec_apply_force(force),
                    ..old(self).particles@[i]
                }),
            final(self).origin == old(self).origin,
            final(self).spawn_count == old(self).spawn_count,
            final(self).decay_rate == old(self).decay_rate,
            final(self).vx_min == old(self).vx_min,
            final(self).vx_max == old(self).vx_max,
            final(self).vy_min == old(self).vy_min,
            final(self).vy_max == old(self).vy_max,
            old(self).wf() ==> final(self).wf(),
    {
        let n = self.particles.len();
        let mut i: usize = 0;
        while i < n
            invariant
                n == self.particles@.len(),
                i <= n,
                forall|j: int|
                    i <= j < n ==> #[trigger] self.particles@[j] == old(self).particles@[j],
                forall|j: int|
                    0 <= j < i ==> #[trigger] self.particles@[j] == (ParticleData {
                        entity: old(self).particles@[j].entity.spec_apply_force(force),
                        ..old(self).particles@[j]
                    }),
                self.origin == old(self).origin,
                self.spawn_count == old(self).spawn_count,
                self.decay_rate == old(self).decay_rate,
                self.vx_min == old(self).vx_min,
                self.vx_max == old(self).vx_max,
                self.vy_min == old(self).vy_min,
                self.vy_max == old(self).vy_max,
            decreases n - i,
        {
            let mut p = self.particles[i];
            p.apply_force(force);
            self.particles[i] = p;
            i = i + 1;
        }
    }

    /// Apply a force field to every particle, each force computed from that
    /// particle's own state.
    pub fn apply_field(&mut self, field: &ForceField)
        requires
            old(self).wf(),
            field.wf(),
        ensures
            final(self).particles@.len() == old(self).particles@.len(),
            forall|i: int|
                0 <= i < old(self).particles@.len() ==> final(self).particles@[i]
                    == (ParticleData {
                    entity: old(self).particles@[i].entity.spec_apply_force(
                        field.spec_force_on(old(self).particles@[i].entity),
                    ),
                    ..old(self).particles@[i]
                }),
            final(self).origin == old(self).origin,
            final(self).spawn_count == old(self).spawn_count,
            final(self).decay_rate == old(self).decay_rate,
            final(self).vx_min == old(self).vx_min,
            final(self).vx_max == old(self).vx_max,
            final(self).vy_min == old(self).vy_min,
            final(self).vy_max == old(self).vy_max,
            final(self).wf(),
    {
        let n = self.particles.len();
        let mut i: usize = 0;
        while i < n
            invariant
                n == self.particles@.len(),
                i <= n,
                field.wf(),
                forall|j: int|
                    0 <= j < n ==> (#[trigger] old(self).particles@[j]).wf() && old(
                        self,
                    ).particles@[j].spec_alive(),
                forall|j: int|
                    i <= j < n ==> #[trigger] self.particles@[j] == old(self).particles@[j],
                forall|j: int|
                    0 <= j < i ==> #[trigger] self.particles@[j] == (ParticleData {
                        entity: old(self).particles@[j].entity.spec_apply_force(
                            field.spec_force_on(old(self).particles@[j].entity),
                        ),
                        ..old(self).particles@[j]
                    }),
                self.origin == old(self).origin,
                self.spawn_count == old(self).spawn_count,
                self.decay_rate == old(self).decay_rate,
                self.vx_min == old(self).vx_min,
                self.vx_max == old(self).vx_max,
                self.vy_min == old(self).vy_min,
                self.vy_max == old(self).vy_max,
            decreases n - i,
        {
            let mut p = self.particles[i];
            let f = field.force_on(&p.entity);
            p.apply_force(f);
            self.particles[i] = p;
            i = i + 1;
        }
    }

    /// Push one freshly spawned particle from an in-range sample.
    pub fn spawn_particle(&mut self, sample: SpawnSample)
        requires
            old(self).wf(),
            old(self).sample_wf(sample),
        ensures
            final(self).particles@ == old(self).particles@.push(
                spec_spawn(old(self).origin, sample),
            ),
            final(self).origin == old(self).origin,
            final(self).spawn_count == old(self).spawn_count,
            final(self).decay_rate == old(self).decay_rate,
            final(self).vx_min == old(self).vx_min,
            final(self).vx_max == old(self).vx_max,
            final(self).vy_min == old(self).vy_min,
            final(self).vy_max == old(self).vy_max,
            final(self).wf(),
    {
        let p = ParticleData::new(self.origin, sample);
        self.particles.push(p);
    }

    /// One system tick: advance every particle (integrate, decay), cull the
    /// dead immediately, then spawn one particle per sample at the origin.
    pub fn update(&mut self, samples: &Vec<SpawnSample>)
        requires
            old(self).wf(),
            old(self).samples_wf(samples@),
        ensures
            final(self).particles@ == spec_tick_particles(
                old(self).particles@,
                old(self).decay_rate,
                old(self).origin,
                samples@,
            ),
            final(self).origin == old(self).origin,
            final(self).spawn_count == old(self).spawn_count,
            final(self).decay_rate == old(self).decay_rate,
            final(self).vx_min == old(self).vx_min,
            final(self).vx_max == old(self).vx_max,
            final(self).vy_min == old(self).vy_min,
            final(self).vy_max == old(self).vy_max,
            final(self).wf(),
    {
        let n = self.particles.len();
        let mut out: Vec<ParticleData> = Vec::new();
        let mut i: usize = 0;
        while i < n
            invariant
                n == self.particles@.len(),
                i <= n,
                self == old(self),
                old(self).wf(),
                out@ == spec_survivors(self.particles@.take(i as int), self.decay_rate),
                forall|j: int| 0 <= j < out@.len() ==> (#[trigger] out@[j]).wf()
                    && out@[j].spec_alive(),
            decreases n - i,
        {
            let mut p = self.particles[i];
            proof {
                assert(old(self).particles@[i as int].wf());
            }
            p.update(self.decay_rate);
            proof {
                assert(self.particles@.take(i + 1 as int).drop_last() =~= self.particles@.take(
                    i as int,
                ));
                assert(self.particles@.take(i + 1 as int).last() == self.particles@[i as int]);
            }
            if p.is_alive() {
                out.push(p);
            }
            i = i + 1;
        }
        proof {
            assert(self.particles@.take(n as int) =~= self.particles@);
        }
        let m = samples.len();
        let mut j: usize = 0;
        while j < m
            invariant
                m == samples@.len(),
                j <= m,
                self == old(self),
                old(self).wf(),
                old(self).samples_wf(samples@),
                out@ == spec_survivors(self.particles@, self.decay_rate) + spec_spawned(
                    self.origin,
                    samples@.take(j as int),
                ),
                forall|jj: int| 0 <= jj < out@.len() ==> (#[trigger] out@[jj]).wf()
                    && out@[jj].spec_alive(),
            decreases m - j,
        {
            let p = ParticleData::new(self.origin, samples[j]);
            out.push(p);
            proof {
                assert(samples@.take(j + 1 as int).drop_last() =~= samples@.take(j as int));
                assert(samples@.take(j + 1 as int).last() == samples@[j as int]);
                assert(out@ == spec_survivors(self.particles@, self.decay_rate) + spec_spawned(
                    self.origin,
                    samples@.take(j + 1 as int),
                ));
            }
            j = j + 1;
        }
        proof {
            assert(samples@.take(m as int) =~= samples@);
        }
        self.particles = out;
    }
}

/// When every advanced particle is still alive, nothing is culled: the
/// survivors are exactly the advanced originals, in order.
pub proof fn lemma_no_cull(particles: Seq<ParticleData>, decay_rate: i64)
    requires
        forall|i: int|
            0 <= i < particles.len() ==> (#[trigger] particles[i].spec_advance(
                decay_rate,
            )).spec_alive(),
    ensures
        spec_survivors(particles, decay_rate).len() == particles.len(),
        forall|i: int|
            0 <= i < particles.len() ==> #[trigger] spec_survivors(particles, decay_rate)[i]
                == particles[i].spec_advance(decay_rate),
    decreases particles.len(),
{
    if particles.len() > 0 {
        assert(forall|i: int|
            0 <= i < particles.drop_last().len() ==> #[trigger] particles.drop_last()[i]
                == particles[i]);
        lemma_no_cull(particles.drop_last(), decay_rate);
    }
}

/// The spawned batch has one particle per sample, each at the origin with
/// full life.
pub proof fn lemma_spawned_len(origin: Vec2, samples: Seq<SpawnSample>)
    ensures
        spec_spawned(origin, samples).len() == samples.len(),
        forall|i: int|
            0 <= i < samples.len() ==> #[trigger] spec_spawned(origin, samples)[i] == spec_spawn(
                origin,
                samples[i],
            ),
    decreases samples.len(),
{
    if samples.len() > 0 {
        lemma_spawned_len(origin, samples.drop_last());
    }
}

/// The state of a system's particles after a whole run of ticks, one sample
/// batch per tick.
pub open spec fn spec_run_ticks(
    particles: Seq<ParticleData>,
    decay_rate: i64,
    origin: Vec2,
    batches: Seq<Seq<SpawnSample>>,
) -> Seq<ParticleData>
    decreases batches.len(),
{
    if batches.len() == 0 {
        particles
    } else {
        spec_tick_particles(
            spec_run_ticks(particles, decay_rate, origin, batches.drop_last()),
            decay_rate,
            origin,
            batches.last(),
        )
    }
}

/// Spawn cadence: starting from an empty system that spawns `k` particles per
/// tick, after `n` ticks the system holds exactly `k * n` particles, provided
/// the decay rate is small enough that none of them has died yet
/// (`n * decay_rate < LIFE_FULL`). Every particle's life is also no older
/// than `n` decays.
pub proof fn lemma_spawn_cadence(
    decay_rate: i64,
    origin: Vec2,
    batches: Seq<Seq<SpawnSample>>,
    k: nat,
)
    requires
        0 < decay_rate <= LIFE_FULL,
        forall|i: int| 0 <= i < batches.len() ==> (#[trigger] batches[i]).len() == k,
        batches.len() * decay_rate < LIFE_FULL,
    ensures
        spec_run_ticks(Seq::empty(), decay_rate, origin, batches).len() == k * batches.len(),
        forall|j: int|
            0 <= j < spec_run_ticks(Seq::empty(), decay_rate, origin, batches).len()
                ==> LIFE_FULL - batches.len() * decay_rate <= (#[trigger] spec_run_ticks(
                Seq::empty(),
                decay_rate,
                origin,
                batches,
            )[j]).life <= LIFE_FULL,
    decreases batches.len(),
{
    if batches.len() == 0 {
        assert(k * 0 == 0) by (nonlinear_arith);
    } else {
        let n = batches.len();
        let prev_batches = batches.drop_last();
        assert((n - 1) * decay_rate < n * decay_rate) by (nonlinear_arith)
            requires
                decay_rate > 0,
                n >= 1,
        ;
        lemma_spawn_cadence(decay_rate, origin, prev_batches, k);
        let prev = spec_run_ticks(Seq::empty(), decay_rate, origin, prev_batches);
        assert forall|i: int|
            0 <= i < prev.len() implies (#[trigger] prev[i].spec_advance(
            decay_rate,
        )).spec_alive() by {
            assert(LIFE_FULL - (n - 1) * decay_rate <= prev[i].life);
            assert((n - 1) * decay_rate + decay_rate == n * decay_rate) by (nonlinear_arith);
        }
        lemma_no_cull(prev, decay_rate);
        lemma_spawned_len(origin, batches.last());
        let cur = spec_run_ticks(Seq::empty(), decay_rate, origin, batches);
        assert(cur.len() == prev.len() + k);
        assert(k * (n - 1) + k == k * n) by (nonlinear_arith);
        assert forall|j: int|
            0 <= j < cur.len() implies LIFE_FULL - n * decay_rate <= (#[trigger] cur[j]).life
            <= LIFE_FULL by {
            if j < prev.len() {
                assert(cur[j] == prev[j].spec_advance(decay_rate));
                assert(LIFE_FULL - (n - 1) * decay_rate <= prev[j].life <= LIFE_FULL);
                assert((n - 1) * decay_rate + decay_rate == n * decay_rate) by (nonlinear_arith);
            } else {
                assert(cur[j] == spec_spawn(origin, batches.last()[j - prev.len()]));
            }
        }
    }
}

} // verus!
