use nature2d::boundary::Boundary;
use nature2d::entity::Entity;
use nature2d::forces::{drag_force, spring_force, ForceField, Rect};
use nature2d::movers::{Attractor, Ball, Liquid, Mover, Repeller};
use nature2d::num::{Ratio, LIMIT};
use nature2d::particle::{ParticleData, ShapeKind, SpawnSample};
use nature2d::vec2::Vec2;

#[test]
fn attraction_magnitude_is_inverse_square() {
    // G = 100, m1 = m2 = 10, d = 5 (inside [5, 25]): |F| = 100*10*10/25 = 400.
    let attractor = Attractor::new(0, 0, 10, Ratio::new(100, 1));
    let mover = Mover::new(5, 0, 10, Ratio::new(1, 1));
    let f = attractor.attract(&mover);
    assert_eq!(f, Vec2::new(-400, 0));

    // Twice the distance, a quarter of the force: d = 10, |F| = 10000/100 = 100.
    let far = Mover::new(10, 0, 10, Ratio::new(1, 1));
    assert_eq!(attractor.attract(&far), Vec2::new(-100, 0));
}

#[test]
fn attraction_clamps_short_distances() {
    let attractor = Attractor::new(0, 0, 10, Ratio::new(100, 1));
    // d = 2 < min_distance 5: the magnitude equals the value at d = 5.
    let near = Mover::new(2, 0, 10, Ratio::new(1, 1));
    let f = near_force_magnitude(&attractor, &near);
    assert_eq!(f, 400);
    // No singularity at zero separation: the direction is zero there.
    let coincident = Mover::new(0, 0, 10, Ratio::new(1, 1));
    assert_eq!(attractor.attract(&coincident), Vec2::new(0, 0));
}

fn near_force_magnitude(attractor: &Attractor, mover: &Mover) -> i64 {
    attractor.attract(mover).len() as i64
}

#[test]
fn attraction_clamps_long_distances() {
    let attractor = Attractor::new(0, 0, 10, Ratio::new(100, 1));
    // d = 50 > max_distance 25: the magnitude equals the value at d = 25.
    let far = Mover::new(50, 0, 10, Ratio::new(1, 1));
    assert_eq!(attractor.attract(&far), Vec2::new(-16, 0)); // 10000/625 = 16
}

#[test]
fn mutual_attraction_uses_both_masses() {
    let a = Mover::new(0, 0, 6, Ratio::new(10, 1));
    let b = Mover::new(10, 0, 4, Ratio::new(10, 1));
    // |F| = 10*6*4/100 = 2, pulling b toward a.
    assert_eq!(a.attract(&b), Vec2::new(-2, 0));
}

#[test]
fn drag_opposes_motion_quadratically() {
    // |v|² = 25, coefficient 1/10: magnitude 2 against the motion.
    let f = drag_force(Ratio::new(1, 10), Vec2::new(3, 4));
    assert_eq!(f, Vec2::new(-1, -1)); // (3*-2/5, 4*-2/5), truncating
    // The zero-velocity edge case yields the zero vector, never a NaN-like
    // failure.
    assert_eq!(drag_force(Ratio::new(1, 10), Vec2::new(0, 0)), Vec2::new(0, 0));
}

#[test]
fn drag_field_respects_containment_region() {
    let region = Rect { x: 0, y: 0, w: 100, h: 100 };
    let field = ForceField::Drag { coefficient: Ratio::new(1, 1), region };
    let inside = Entity::new(Vec2::new(50, 50), Vec2::new(3, 4), 1);
    let outside = Entity::new(Vec2::new(150, 50), Vec2::new(3, 4), 1);
    assert_ne!(field.force_on(&inside), Vec2::new(0, 0));
    assert_eq!(field.force_on(&outside), Vec2::new(0, 0));
}

#[test]
fn mover_drag_through_liquid() {
    let liquid = Liquid::new(Rect { x: 0, y: 50, w: 100, h: 50 }, Ratio::new(1, 10));
    let mut m = Mover::new(50, 75, 1, Ratio::new(1, 1));
    assert!(m.is_inside(&liquid));
    m.entity.velocity = Vec2::new(3, 4);
    m.apply_drag(&liquid);
    assert_eq!(m.entity.accumulator, Vec2::new(-1, -1));
    let outside = Mover::new(150, 75, 1, Ratio::new(1, 1));
    assert!(!outside.is_inside(&liquid));
}

#[test]
fn spring_force_is_hookean() {
    // Stretched 50 past rest, stiffness 1/2: |F| = 25 toward the anchor.
    let f = spring_force(Vec2::new(0, 0), 50, Ratio::new(1, 2), Vec2::new(0, 100));
    assert_eq!(f, Vec2::new(0, -25));
    // Compressed below rest: pushed away from the anchor.
    let g = spring_force(Vec2::new(0, 0), 50, Ratio::new(1, 2), Vec2::new(0, 30));
    assert_eq!(g, Vec2::new(0, 10)); // delta = -20, magnitude 10 outward
    // At rest length the force vanishes.
    let h = spring_force(Vec2::new(0, 0), 50, Ratio::new(1, 2), Vec2::new(0, 50));
    assert_eq!(h, Vec2::new(0, 0));
}

#[test]
fn constant_and_wind_fields_ignore_target() {
    let gravity = ForceField::Constant { force: Vec2::new(0, 10) };
    let wind = ForceField::Wind { current: Vec2::new(3, 0) };
    let slow = Entity::new(Vec2::new(0, 0), Vec2::new(0, 0), 1);
    let fast = Entity::new(Vec2::new(900, 900), Vec2::new(50, 50), 7);
    assert_eq!(gravity.force_on(&slow), Vec2::new(0, 10));
    assert_eq!(gravity.force_on(&fast), Vec2::new(0, 10));
    assert_eq!(wind.force_on(&slow), Vec2::new(3, 0));
    assert_eq!(wind.force_on(&fast), Vec2::new(3, 0));
}

#[test]
fn repeller_pushes_particles_away() {
    let repeller = Repeller::new(0, 0, Ratio::new(42, 1));
    let sample = SpawnSample { vx: 0, vy: 0, shape: ShapeKind::Disc };
    let p = ParticleData::new(Vec2::new(10, 0), sample);
    // |F| = 42*10/100 = 4 (truncating), pointing away from the repeller.
    assert_eq!(repeller.repel(&p), Vec2::new(4, 0));
}

#[test]
fn bounce_flips_sign_and_scales_once() {
    let boundary = Boundary::Bounce {
        extent: Vec2::new(100, 100),
        restitution: Ratio::new(50, 100),
    };
    let mut e = Entity::new(Vec2::new(105, 50), Vec2::new(10, 3), 1);
    boundary.apply(&mut e);
    // Crossed x: clamped in, velocity flipped and halved. Untouched y.
    assert_eq!(e.position, Vec2::new(100, 50));
    assert_eq!(e.velocity, Vec2::new(-5, 3));

    // Restitution above one gains energy, deliberately.
    let lively = Boundary::Bounce {
        extent: Vec2::new(100, 100),
        restitution: Ratio::new(175, 100),
    };
    let mut g = Entity::new(Vec2::new(-3, 50), Vec2::new(-8, 0), 1);
    lively.apply(&mut g);
    assert_eq!(g.position, Vec2::new(0, 50));
    assert_eq!(g.velocity, Vec2::new(14, 0));
}

#[test]
fn bounce_corrects_both_axes_independently() {
    let boundary = Boundary::Bounce {
        extent: Vec2::new(100, 100),
        restitution: Ratio::new(1, 1),
    };
    let mut e = Entity::new(Vec2::new(-5, 110), Vec2::new(-2, 7), 1);
    boundary.apply(&mut e);
    assert_eq!(e.position, Vec2::new(0, 100));
    assert_eq!(e.velocity, Vec2::new(2, -7));
}

#[test]
fn wrap_jumps_to_opposite_edge() {
    let boundary = Boundary::Wrap { extent: Vec2::new(100, 100) };
    let mut e = Entity::new(Vec2::new(105, -2), Vec2::new(5, -1), 1);
    boundary.apply(&mut e);
    assert_eq!(e.position, Vec2::new(0, 100));
    // Velocity is unchanged by wrapping.
    assert_eq!(e.velocity, Vec2::new(5, -1));
}

#[test]
fn reflect_and_damp_drops_crossed_axis_force() {
    let boundary = Boundary::ReflectAndDamp {
        extent: Vec2::new(100, 100),
        restitution: Ratio::new(1, 1),
    };
    let mut e = Entity::new(Vec2::new(105, 50), Vec2::new(10, 3), 1);
    e.apply_force(Vec2::new(9, 9));
    boundary.apply(&mut e);
    assert_eq!(e.position, Vec2::new(100, 50));
    assert_eq!(e.velocity, Vec2::new(-10, 3));
    // The pending force on the crossed axis is dropped; the other stays.
    assert_eq!(e.accumulator, Vec2::new(0, 9));
}

#[test]
fn ball_bounces_at_edges() {
    let mut b = Ball::new();
    assert_eq!(b.position, Vec2::new(128, 128));
    b.update(Vec2::new(1000, 1000));
    assert_eq!(b.position, Vec2::new(130, 131));
    assert_eq!(b.speed, Vec2::new(2, 3));
    // Crossing the x extent clamps the position in and flips only the x
    // speed.
    let mut c = Ball::new();
    c.update(Vec2::new(129, 1000));
    assert_eq!(c.position, Vec2::new(129, 131));
    assert_eq!(c.speed, Vec2::new(-2, 3));
    // The low edge clamps to zero.
    let mut d = Ball::new();
    d.speed = Vec2::new(-200, 1);
    d.update(Vec2::new(1000, 1000));
    assert_eq!(d.position, Vec2::new(0, 129));
    assert_eq!(d.speed, Vec2::new(200, 1));
}

#[test]
fn repeller_field_matches_limit_bound() {
    // The repelling field is attraction with a negated strength and no
    // effective distance ceiling.
    let repeller = Repeller::new(0, 0, Ratio::new(42, 1));
    let field = repeller.as_field();
    match field {
        ForceField::Attraction { strength, max_distance, .. } => {
            assert_eq!(strength.num, -42);
            assert_eq!(max_distance, LIMIT);
        }
        _ => panic!("repeller did not materialize as an attraction field"),
    }
}
