//! The per-tick orchestrator. Order, fixed every tick: every configured
//! force field contributes to every entity (computed from start-of-tick
//! state), entities integrate, the boundary policy corrects them, and the
//! particle systems advance, cull and respawn.
//!
//! The tick is a pure function of the prior state and the injected spawn
//! samples, which is what makes a fixed-seed run reproducible.

use vstd::prelude::*;

verus! {

use rand::rngs::SmallRng;
use crate::vec2::Vec2;
use crate::entity::Entity;
use crate::boundary::Boundary;
use crate::forces::ForceField;
use crate::particle::{ParticleData, ParticleSystem, SpawnSample, spec_tick_particles};

/// Every field in the sequence is well-formed.
pub open spec fn fields_wf(fields: Seq<ForceField>) -> bool {
    forall|i: int| 0 <= i < fields.len() ==> (#[trigger] fields[i]).wf()
}

/// The sum of the forces the fields exert on a target, accumulated in order.
/// Vector addition saturates, so the summation order is fixed (front to
/// back) to keep the result exact.
pub open spec fn spec_total_force(fields: Seq<ForceField>, e: Entity) -> Vec2
    decreases fields.len(),
{
    if fields.len() == 0 {
        Vec2::spec_zero()
    } else {
        spec_total_force(fields.drop_last(), e).spec_add(fields.last().spec_force_on(e))
    }
}

/// Sum the force every field exerts on the target entity.
pub fn total_force(fields: &Vec<ForceField>, e: &Entity) -> (f: Vec2)
    requires
        fields_wf(fields@),
        e.wf(),
    ensures
        f == spec_total_force(fields@, *e),
{
    let mut acc = Vec2::zero();
    let n = fields.len();
    let mut i: usize = 0;
    while i < n
        invariant
            n == fields@.len(),
            i <= n,
            fields_wf(fields@),
            e.wf(),
            acc == spec_total_force(fields@.take(i as int), *e),
        decreases n - i,
    {
        let fld = fields[i];
        let f = fld.force_on(e);
        acc = acc.add(f);
        proof {
            assert(fields@.take(i + 1 as int).drop_last() =~= fields@.take(i as int));
            assert(fields@.take(i + 1 as int).last() == fields@[i as int]);
        }
        i = i + 1;
    }
    proof {
        assert(fields@.take(n as int) =~= fields@);
    }
    acc
}

/// One tick of a single entity: accumulate the total field force, integrate,
/// then apply the boundary policy.
pub open spec fn spec_step_entity(fields: Seq<ForceField>, boundary: Boundary, e: Entity) -> Entity {
    boundary.spec_apply(e.spec_apply_force(spec_total_force(fields, e)).spec_integrate())
}

/// A particle after the simulation's fields have been applied to it.
pub open spec fn spec_apply_fields_particle(fields: Seq<ForceField>, p: ParticleData) -> ParticleData {
    ParticleData { entity: p.entity.spec_apply_force(spec_total_force(fields, p.entity)), ..p }
}

pub open spec fn spec_apply_fields_seq(
    fields: Seq<ForceField>,
    particles: Seq<ParticleData>,
) -> Seq<ParticleData> {
    Seq::new(particles.len(), |j: int| spec_apply_fields_particle(fields, particles[j]))
}

/// `new_sys` is `old_sys` after one simulation tick: the fields applied to
/// every particle, every particle advanced, the dead culled, the batch
/// spawned; the emission configuration is untouched.
pub open spec fn spec_system_stepped(
    fields: Seq<ForceField>,
    old_sys: ParticleSystem,
    new_sys: ParticleSystem,
    samples: Seq<SpawnSample>,
) -> bool {
    &&& new_sys.particles@ == spec_tick_particles(
        spec_apply_fields_seq(fields, old_sys.particles@),
        old_sys.decay_rate,
        old_sys.origin,
        samples,
    )
    &&& new_sys.origin == old_sys.origin
    &&& new_sys.spawn_count == old_sys.spawn_count
    &&& new_sys.decay_rate == old_sys.decay_rate
    &&& new_sys.vx_min == old_sys.vx_min
    &&& new_sys.vx_max == old_sys.vx_max
    &&& new_sys.vy_min == old_sys.vy_min
    &&& new_sys.vy_max == old_sys.vy_max
}

fn vec_index_mut<T>(v: &mut Vec<T>, i: usize) -> (element: &mut T)
    requires
        i < old(v)@.len(),
    ensures
        *element == old(v)@[i as int],
        final(v)@ == old(v)@.update(i as int, *final(element)),
{
    &mut v[i]
}

fn step_system(sys: &mut ParticleSystem, fields: &Vec<ForceField>, samples: &Vec<SpawnSample>)
    requires
        old(sys).wf(),
        fields_wf(fields@),
        old(sys).samples_wf(samples@),
    ensures
        spec_system_stepped(fields@, *old(sys), *final(sys), samples@),
        final(sys).wf(),
{
    let n = sys.particles.len();
    let mut i: usize = 0;
    while i < n
        invariant
            n == sys.particles@.len(),
            i <= n,
            old(sys).wf(),
            fields_wf(fields@),
            sys.particles@.len() == old(sys).particles@.len(),
            sys.origin == old(sys).origin,
            sys.spawn_count == old(sys).spawn_count,
            sys.decay_rate == old(sys).decay_rate,
            sys.vx_min == old(sys).vx_min,
            sys.vx_max == old(sys).vx_max,
            sys.vy_min == old(sys).vy_min,
            sys.vy_max == old(sys).vy_max,
            forall|j: int|
                i <= j < n ==> #[trigger] sys.particles@[j] == old(sys).particles@[j],
            forall|j: int|
                0 <= j < i ==> #[trigger] sys.particles@[j] == spec_apply_fields_particle(
                    fields@,
                    old(sys).particles@[j],
                ),
        decreases n - i,
    {
        let mut p = sys.particles[i];
        proof {
            assert(old(sys).particles@[i as int].wf());
        }
        let f = total_force(fields, &p.entity);
        p.apply_force(f);
        sys.particles[i] = p;
        i = i + 1;
    }
    proof {
        assert(sys.particles@ =~= spec_apply_fields_seq(fields@, old(sys).particles@));
        assert forall|j: int|
            0 <= j < sys.particles@.len() implies (#[trigger] sys.particles@[j]).wf()
            && sys.particles@[j].spec_alive() by {
            assert(old(sys).particles@[j].wf() && old(sys).particles@[j].spec_alive());
        }
        assert(sys.wf());
    }
    sys.update(samples);
}

/// A simulation owns its entities and particle systems exclusively; force
/// fields and the boundary policy are configuration read each tick.
#[derive(Debug)]
pub struct Simulation {
    pub entities: Vec<Entity>,
    pub fields: Vec<ForceField>,
    pub boundary: Boundary,
    pub systems: Vec<ParticleSystem>,
}

impl Simulation {
    pub open spec fn wf(self) -> bool {
        &&& self.boundary.wf()
        &&& fields_wf(self.fields@)
        &&& forall|i: int| 0 <= i < self.entities@.len() ==> (#[trigger] self.entities@[i]).wf()
        &&& forall|i: int| 0 <= i < self.systems@.len() ==> (#[trigger] self.systems@[i]).wf()
    }

    /// The batches hand one in-range spawn batch to each particle system.
    pub open spec fn batches_wf(self, batches: Seq<Vec<SpawnSample>>) -> bool {
        &&& batches.len() == self.systems@.len()
        &&& forall|i: int|
            0 <= i < self.systems@.len() ==> (#[trigger] self.systems@[i]).samples_wf(
                batches[i]@,
            )
    }

    /// An empty simulation under the given boundary policy.
    pub fn new(boundary: Boundary) -> (s: Simulation)
        requires
            boundary.wf(),
        ensures
            s.entities@ == Seq::<Entity>::empty(),
            s.fields@ == Seq::<ForceField>::empty(),
            s.systems@.len() == 0,
            s.boundary == boundary,
            s.wf(),
    {
        Simulation { entities: Vec::new(), fields: Vec::new(), boundary, systems: Vec::new() }
    }

    pub fn add_entity(&mut self, e: Entity)
        requires
            old(self).wf(),
            e.wf(),
        ensures
            final(self).entities@ == old(self).entities@.push(e),
            final(self).fields == old(self).fields,
            final(self).boundary == old(self).boundary,
            final(self).systems == old(self).systems,
            final(self).wf(),
    {
        self.entities.push(e);
    }

    pub fn add_field(&mut self, f: ForceField)
        requires
            old(self).wf(),
            f.wf(),
        ensures
            final(self).fields@ == old(self).fields@.push(f),
            final(self).entities == old(self).entities,
            final(self).boundary == old(self).boundary,
            final(self).systems == old(self).systems,
            final(self).wf(),
    {
        self.fields.push(f);
    }

    pub fn add_system(&mut self, s: ParticleSystem)
        requires
            old(self).wf(),
            s.wf(),
        ensures
            final(self).systems@ == old(self).systems@.push(s),
            final(self).entities == old(self).entities,
            final(self).fields == old(self).fields,
            final(self).boundary == old(self).boundary,
            final(self).wf(),
    {
        self.systems.push(s);
    }

    /// How many entities the simulation owns (for diagnostics).
    pub fn entity_count(&self) -> (n: usize)
        ensures
            n == self.entities@.len(),
    {
        self.entities.len()
    }

    /// One fixed tick: fields are summed against start-of-tick state for
    /// every entity (no entity sees a partially updated neighbour), entities
    /// integrate and meet the boundary, and every particle system advances
    /// on its own spawn batch.
    pub fn step(&mut self, sample_batches: &Vec<Vec<SpawnSample>>)
        requires
            old(self).wf(),
            old(self).batches_wf(sample_batches@),
        ensures
            final(self).entities@.len() == old(self).entities@.len(),
            forall|i: int|
                0 <= i < old(self).entities@.len() ==> #[trigger] final(self).entities@[i]
                    == spec_step_entity(
                    old(self).fields@,
                    old(self).boundary,
                    old(self).entities@[i],
                ),
            final(self).systems@.len() == old(self).systems@.len(),
            forall|i: int|
                0 <= i < old(self).systems@.len() ==> spec_system_stepped(
                    old(self).fields@,
                    #[trigger] old(self).systems@[i],
                    final(self).systems@[i],
                    sample_batches@[i]@,
                ),
            final(self).fields@ == old(self).fields@,
            final(self).boundary == old(self).boundary,
            final(self).wf(),
    {
        let n = self.entities.len();
        let mut i: usize = 0;
        while i < n
            invariant
                n == self.entities@.len(),
                i <= n,
                old(self).wf(),
                self.fields == old(self).fields,
                self.boundary == old(self).boundary,
                self.systems == old(self).systems,
                self.entities@.len() == old(self).entities@.len(),
                forall|j: int|
                    i <= j < n ==> #[trigger] self.entities@[j] == old(self).entities@[j],
                forall|j: int|
                    0 <= j < i ==> #[trigger] self.entities@[j] == spec_step_entity(
                        old(self).fields@,
                        old(self).boundary,
                        old(self).entities@[j],
                    ) && self.entities@[j].wf(),
            decreases n - i,
        {
            let mut e = self.entities[i];
            proof {
                assert(old(self).entities@[i as int].wf());
            }
            let f = total_force(&self.fields, &e);
            e.apply_force(f);
            e.integrate();
            let b = self.boundary;
            b.apply(&mut e);
            proof {
                assert(e.wf());
            }
            self.entities[i] = e;
            i = i + 1;
        }
        let m = self.systems.len();
        let mut si: usize = 0;
        while si < m
            invariant
                m == self.systems@.len(),
                si <= m,
                old(self).wf(),
                old(self).batches_wf(sample_batches@),
                sample_batches@.len() == m,
                self.fields == old(self).fields,
                self.boundary == old(self).boundary,
                self.entities@.len() == old(self).entities@.len(),
                forall|j: int|
                    0 <= j < old(self).entities@.len() ==> #[trigger] self.entities@[j]
                        == spec_step_entity(
                        old(self).fields@,
                        old(self).boundary,
                        old(self).entities@[j],
                    ) && self.entities@[j].wf(),
                self.systems@.len() == old(self).systems@.len(),
                forall|j: int|
                    si <= j < m ==> #[trigger] self.systems@[j] == old(self).systems@[j],
                forall|j: int|
                    0 <= j < si ==> spec_system_stepped(
                        old(self).fields@,
                        #[trigger] old(self).systems@[j],
                        self.systems@[j],
                        sample_batches@[j]@,
                    ) && self.systems@[j].wf(),
            decreases m - si,
        {
            proof {
                assert(old(self).systems@[si as int].wf());
                assert(old(self).systems@[si as int].samples_wf(sample_batches@[si as int]@));
            }
            let sys = vec_index_mut(&mut self.systems, si);
            step_system(sys, &self.fields, &sample_batches[si]);
            si = si + 1;
        }
        proof {
            assert(fields_wf(self.fields@));
            assert forall|j: int|
                0 <= j < self.entities@.len() implies (#[trigger] self.entities@[j]).wf() by {
                assert(self.entities@[j] == spec_step_entity(
                    old(self).fields@,
                    old(self).boundary,
                    old(self).entities@[j],
                ) && self.entities@[j].wf());
            }
            assert forall|j: int|
                0 <= j < self.systems@.len() implies (#[trigger] self.systems@[j]).wf() by {
                assert(spec_system_stepped(
                    old(self).fields@,
                    old(self).systems@[j],
                    self.systems@[j],
                    sample_batches@[j]@,
                ) && self.systems@[j].wf());
            }
            assert(self.wf());
        }
    }

    /// One tick with every spawn batch drawn from the injected generator;
    /// the drawn batches are returned, so a caller can see (and replay)
    /// exactly the samples this tick consumed.
    pub fn step_with_rng(&mut self, rng: &mut SmallRng) -> (batches: Vec<Vec<SpawnSample>>)
        requires
            old(self).wf(),
        ensures
            old(self).batches_wf(batches@),
            final(self).entities@.len() == old(self).entities@.len(),
            forall|i: int|
                0 <= i < old(self).entities@.len() ==> #[trigger] final(self).entities@[i]
                    == spec_step_entity(
                    old(self).fields@,
                    old(self).boundary,
                    old(self).entities@[i],
                ),
            final(self).systems@.len() == old(self).systems@.len(),
            forall|i: int|
                0 <= i < old(self).systems@.len() ==> spec_system_stepped(
                    old(self).fields@,
                    #[trigger] old(self).systems@[i],
                    final(self).systems@[i],
                    batches@[i]@,
                ),
            final(self).fields@ == old(self).fields@,
            final(self).boundary == old(self).boundary,
            final(self).wf(),
    {
        let mut batches: Vec<Vec<SpawnSample>> = Vec::new();
        let m = self.systems.len();
        let mut i: usize = 0;
        while i < m
            invariant
                m == self.systems@.len(),
                i <= m,
                old(self).wf(),
                self == old(self),
                batches@.len() == i,
                forall|j: int|
                    0 <= j < i ==> (#[trigger] self.systems@[j]).samples_wf(batches@[j]@),
            decreases m - i,
        {
            let sys_ref = &self.systems[i];
            let b = sys_ref.draw_samples(rng);
            batches.push(b);
            i = i + 1;
        }
        self.step(&batches);
        batches
    }
}

/// Determinism under a fixed seed: the tick transition is a pure function of
/// the prior state and the injected spawn samples. Two simulations with
/// equal entities, fields, boundary, and system contents, stepped with equal
/// sample batches, have bit-identical entities and system contents after the
/// tick.
pub proof fn lemma_step_deterministic(
    a: Simulation,
    b: Simulation,
    batches_a: Seq<Seq<SpawnSample>>,
    batches_b: Seq<Seq<SpawnSample>>,
)
    requires
        a.entities@ == b.entities@,
        a.fields@ == b.fields@,
        a.boundary == b.boundary,
        a.systems@.len() == b.systems@.len(),
        forall|i: int|
            0 <= i < a.systems@.len() ==> (#[trigger] a.systems@[i]).particles@
                == b.systems@[i].particles@ && a.systems@[i].decay_rate == b.systems@[i].decay_rate
                && a.systems@[i].origin == b.systems@[i].origin,
        batches_a == batches_b,
    ensures
        forall|i: int|
            0 <= i < a.entities@.len() ==> spec_step_entity(
                a.fields@,
                a.boundary,
                #[trigger] a.entities@[i],
            ) == spec_step_entity(b.fields@, b.boundary, b.entities@[i]),
        forall|i: int|
            0 <= i < a.systems@.len() && 0 <= i < batches_a.len() ==> spec_tick_particles(
                spec_apply_fields_seq(a.fields@, (#[trigger] a.systems@[i]).particles@),
                a.systems@[i].decay_rate,
                a.systems@[i].origin,
                batches_a[i],
            ) == spec_tick_particles(
                spec_apply_fields_seq(b.fields@, b.systems@[i].particles@),
                b.systems@[i].decay_rate,
                b.systems@[i].origin,
                batches_b[i],
            ),
{
}

} // verus!
