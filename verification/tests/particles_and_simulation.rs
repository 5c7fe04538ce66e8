use nature2d::boundary::Boundary;
use nature2d::movers::Repeller;
use nature2d::entity::Entity;
use nature2d::forces::ForceField;
use nature2d::num::Ratio;
use nature2d::particle::{ParticleData, ParticleSystem, ShapeKind, SpawnSample, LIFE_FULL};
use nature2d::simulation::Simulation;
use nature2d::vec2::Vec2;
use rand::rngs::SmallRng;
use rand::SeedableRng;

fn sample(vx: i64, vy: i64, shape: ShapeKind) -> SpawnSample {
    SpawnSample { vx, vy, shape }
}

#[test]
fn spawned_particle_starts_at_full_life() {
    let p = ParticleData::new(Vec2::new(50, 50), sample(1, -2, ShapeKind::Quad));
    assert!(p.is_alive());
    assert_eq!(p.life, LIFE_FULL);
    assert_eq!(p.entity.position, Vec2::new(50, 50));
    assert_eq!(p.entity.velocity, Vec2::new(1, -2));
    assert_eq!(p.entity.mass, 1);
    assert_eq!(p.shape, ShapeKind::Quad);
}

#[test]
fn life_decreases_by_rate_and_culls_immediately() {
    // decay of 300_000 per tick: alive after ticks 1..3, culled on tick 4.
    let mut sys = ParticleSystem::new(Vec2::new(0, 0), 0, 300_000, -1, 1, -1, 1);
    sys.spawn_particle(sample(0, 0, ShapeKind::Disc));
    let empty: Vec<SpawnSample> = Vec::new();
    let expected_lives = [700_000, 400_000, 100_000];
    for life in expected_lives {
        sys.update(&empty);
        assert_eq!(sys.len(), 1);
        assert_eq!(sys.particles[0].life, life);
    }
    // 100_000 - 300_000 <= 0: absent the first tick its life reaches zero.
    sys.update(&empty);
    assert_eq!(sys.len(), 0);
}

#[test]
fn exact_zero_life_is_culled() {
    let mut sys = ParticleSystem::new(Vec2::new(0, 0), 0, 500_000, -1, 1, -1, 1);
    sys.spawn_particle(sample(0, 0, ShapeKind::Disc));
    let empty: Vec<SpawnSample> = Vec::new();
    sys.update(&empty);
    assert_eq!(sys.particles[0].life, 500_000);
    sys.update(&empty);
    // life would be exactly 0: not alive, removed the same tick.
    assert_eq!(sys.len(), 0);
}

#[test]
fn spawn_cadence_from_empty() {
    // k = 3 per tick, decay small enough that nothing dies in 5 ticks.
    let mut sys = ParticleSystem::new(Vec2::new(10, 10), 3, 1000, -1, 1, -2, 0);
    for tick in 1..=5 {
        let batch = vec![
            sample(0, -1, ShapeKind::Disc),
            sample(1, 0, ShapeKind::Quad),
            sample(-1, -2, ShapeKind::Triangle),
        ];
        sys.update(&batch);
        assert_eq!(sys.len(), 3 * tick);
    }
}

#[test]
fn system_can_be_empty_and_still_valid() {
    let mut sys = ParticleSystem::new(Vec2::new(0, 0), 0, 1000, -1, 1, -1, 1);
    let empty: Vec<SpawnSample> = Vec::new();
    sys.update(&empty);
    sys.update(&empty);
    assert_eq!(sys.len(), 0);
}

#[test]
fn shape_tag_never_changes_motion() {
    let mut disc = ParticleData::new(Vec2::new(5, 5), sample(2, -1, ShapeKind::Disc));
    let mut tri = ParticleData::new(Vec2::new(5, 5), sample(2, -1, ShapeKind::Triangle));
    disc.apply_force(Vec2::new(0, 3));
    tri.apply_force(Vec2::new(0, 3));
    disc.update(1000);
    tri.update(1000);
    assert_eq!(disc.entity, tri.entity);
    assert_eq!(disc.life, tri.life);
}

#[test]
fn particles_integrate_under_applied_force() {
    let mut sys = ParticleSystem::new(Vec2::new(0, 0), 0, 1000, -1, 1, -1, 1);
    sys.spawn_particle(sample(1, 0, ShapeKind::Disc));
    sys.apply_force(Vec2::new(0, 4));
    let empty: Vec<SpawnSample> = Vec::new();
    sys.update(&empty);
    // Unit mass: velocity (1, 0) + (0, 4); position gains the new velocity.
    assert_eq!(sys.particles[0].entity.velocity, Vec2::new(1, 4));
    assert_eq!(sys.particles[0].entity.position, Vec2::new(1, 4));
}

#[test]
fn drawn_spawn_velocities_stay_in_range() {
    let mut rng = SmallRng::seed_from_u64(12345);
    let mut sys = ParticleSystem::new(Vec2::new(0, 0), 8, 1000, -3, 3, -7, 0);
    for _ in 0..20 {
        sys.update_with_rng(&mut rng);
    }
    // Every spawned particle had its initial velocity drawn in range; check
    // the youngest batch directly (it has not integrated yet).
    let len = sys.particles.len();
    for p in &sys.particles[len - 8..] {
        assert!((-3..=3).contains(&p.entity.velocity.x));
        assert!((-7..=0).contains(&p.entity.velocity.y));
        assert_eq!(p.life, LIFE_FULL);
        assert_eq!(p.entity.position, Vec2::new(0, 0));
    }
}

#[test]
fn seeded_draws_are_reproducible() {
    let mut r1 = SmallRng::seed_from_u64(42);
    let mut r2 = SmallRng::seed_from_u64(42);
    let mut s1 = ParticleSystem::new(Vec2::new(0, 0), 5, 1000, -9, 9, -9, 9);
    let mut s2 = ParticleSystem::new(Vec2::new(0, 0), 5, 1000, -9, 9, -9, 9);
    for _ in 0..10 {
        s1.update_with_rng(&mut r1);
        s2.update_with_rng(&mut r2);
    }
    assert_eq!(s1.particles.len(), s2.particles.len());
    for (a, b) in s1.particles.iter().zip(s2.particles.iter()) {
        assert_eq!(a, b);
    }
}

fn build_demo_simulation() -> Simulation {
    let mut sim = Simulation::new(Boundary::Bounce {
        extent: Vec2::new(640, 480),
        restitution: Ratio::new(9, 10),
    });
    sim.add_entity(Entity::new(Vec2::new(100, 100), Vec2::new(5, 0), 2));
    sim.add_entity(Entity::new(Vec2::new(300, 50), Vec2::new(-3, 4), 7));
    sim.add_field(ForceField::Constant { force: Vec2::new(0, 2) });
    sim.add_field(ForceField::Attraction {
        source: Vec2::new(320, 240),
        source_mass: 500,
        strength: Ratio::new(80, 100),
        min_distance: 5,
        max_distance: 25,
    });
    sim.add_system(ParticleSystem::new(Vec2::new(320, 42), 4, 8000, -1, 1, -2, 0));
    sim
}

#[test]
fn deterministic_under_fixed_seed() {
    // Two simulations stepped identically with the same injected seed give
    // bit-identical trajectories.
    let mut r1 = SmallRng::seed_from_u64(2024);
    let mut r2 = SmallRng::seed_from_u64(2024);
    let mut sim1 = build_demo_simulation();
    let mut sim2 = build_demo_simulation();
    for _ in 0..50 {
        sim1.step_with_rng(&mut r1);
        sim2.step_with_rng(&mut r2);
        assert_eq!(sim1.entities, sim2.entities);
        assert_eq!(sim1.systems[0].particles, sim2.systems[0].particles);
    }
    // A different seed diverges (with overwhelming likelihood for this many
    // draws), showing the samples really feed the trajectory.
    let mut r3 = SmallRng::seed_from_u64(2025);
    let mut sim3 = build_demo_simulation();
    let mut diverged = false;
    for _ in 0..50 {
        sim3.step_with_rng(&mut r3);
    }
    for (a, b) in sim1.systems[0].particles.iter().zip(sim3.systems[0].particles.iter()) {
        if a != b {
            diverged = true;
        }
    }
    assert!(diverged);
}

#[test]
fn step_applies_fields_integrates_and_bounces() {
    let mut sim = Simulation::new(Boundary::Bounce {
        extent: Vec2::new(100, 100),
        restitution: Ratio::new(1, 1),
    });
    sim.add_entity(Entity::new(Vec2::new(95, 50), Vec2::new(10, 0), 1));
    let batches: Vec<Vec<SpawnSample>> = Vec::new();
    sim.step(&batches);
    // 95 + 10 = 105 crosses the extent: clamped to 100, velocity flipped.
    assert_eq!(sim.entities[0].position, Vec2::new(100, 50));
    assert_eq!(sim.entities[0].velocity, Vec2::new(-10, 0));
    sim.step(&batches);
    assert_eq!(sim.entities[0].position, Vec2::new(90, 50));
}

#[test]
fn step_uses_start_of_tick_state_for_forces() {
    // Gravity only: each tick the velocity gains accumulator / mass.
    let mut sim = Simulation::new(Boundary::Wrap { extent: Vec2::new(10_000, 10_000) });
    sim.add_entity(Entity::new(Vec2::new(0, 0), Vec2::new(0, 0), 2));
    sim.add_field(ForceField::Constant { force: Vec2::new(0, 10) });
    let batches: Vec<Vec<SpawnSample>> = Vec::new();
    sim.step(&batches);
    assert_eq!(sim.entities[0].velocity, Vec2::new(0, 5));
    assert_eq!(sim.entities[0].position, Vec2::new(0, 5));
    sim.step(&batches);
    assert_eq!(sim.entities[0].velocity, Vec2::new(0, 10));
    assert_eq!(sim.entities[0].position, Vec2::new(0, 15));
}

#[test]
fn step_advances_particle_systems_with_fields() {
    let mut sim = Simulation::new(Boundary::Wrap { extent: Vec2::new(10_000, 10_000) });
    sim.add_field(ForceField::Constant { force: Vec2::new(0, 3) });
    let mut sys = ParticleSystem::new(Vec2::new(100, 100), 1, 1000, 0, 0, 0, 0);
    sys.spawn_particle(SpawnSample { vx: 2, vy: 0, shape: ShapeKind::Disc });
    sim.add_system(sys);
    let batches = vec![vec![SpawnSample { vx: 0, vy: 0, shape: ShapeKind::Quad }]];
    sim.step(&batches);
    // The old particle felt gravity (unit mass) and decayed once; one fresh
    // particle spawned after it.
    assert_eq!(sim.systems[0].len(), 2);
    assert_eq!(sim.systems[0].particles[0].entity.velocity, Vec2::new(2, 3));
    assert_eq!(sim.systems[0].particles[0].entity.position, Vec2::new(102, 103));
    assert_eq!(sim.systems[0].particles[0].life, LIFE_FULL - 1000);
    assert_eq!(sim.systems[0].particles[1].life, LIFE_FULL);
    assert_eq!(sim.systems[0].particles[1].entity.position, Vec2::new(100, 100));
}

#[test]
fn step_with_rng_reports_in_range_batches() {
    let mut rng = SmallRng::seed_from_u64(7);
    let mut sim = Simulation::new(Boundary::Wrap { extent: Vec2::new(1000, 1000) });
    sim.add_system(ParticleSystem::new(Vec2::new(5, 5), 6, 1000, -4, 4, -8, -1));
    let batches = sim.step_with_rng(&mut rng);
    assert_eq!(batches.len(), 1);
    assert_eq!(batches[0].len(), 6);
    for s in &batches[0] {
        assert!((-4..=4).contains(&s.vx));
        assert!((-8..=-1).contains(&s.vy));
    }
    assert_eq!(sim.systems[0].len(), 6);
}

#[test]
fn repeller_applies_to_whole_system() {
    let mut sys = ParticleSystem::new(Vec2::new(0, 0), 0, 1000, -1, 1, -1, 1);
    sys.spawn_particle(sample(0, 0, ShapeKind::Disc));
    let mut far = ParticleData::new(Vec2::new(10, 0), sample(0, 0, ShapeKind::Disc));
    let repeller = Repeller::new(0, 0, Ratio::new(42, 1));
    let f = repeller.repel(&far);
    sys.apply_repeller(&repeller);
    // The particle at the origin coincides with the repeller: zero force.
    assert_eq!(sys.particles[0].entity.accumulator, Vec2::new(0, 0));
    far.apply_force(f);
    assert_eq!(far.entity.accumulator, Vec2::new(4, 0));
}
