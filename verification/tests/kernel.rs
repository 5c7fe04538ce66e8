use nature2d::entity::{Entity, Orientation};
use nature2d::num::Ratio;
use nature2d::oscillation::{Bob, Oscillator, Spaceship, Spring, Wave};
use nature2d::vec2::Vec2;
use nature2d::walker::Walker;
use rand::rngs::SmallRng;
use rand::SeedableRng;

#[test]
fn vector_algebra() {
    let a = Vec2::new(3, -4);
    let b = Vec2::new(10, 2);
    assert_eq!(a.add(b), Vec2::new(13, -2));
    assert_eq!(a.sub(b), Vec2::new(-7, -6));
    assert_eq!(a.scale(-2), Vec2::new(-6, 8));
    assert_eq!(a.neg(), Vec2::new(-3, 4));
    assert_eq!(a.sq_len(), 25);
    assert_eq!(a.len(), 5);
}

#[test]
fn vector_addition_saturates() {
    let a = Vec2::new(i64::MAX, i64::MIN);
    assert_eq!(a.add(Vec2::new(1, -1)), Vec2::new(i64::MAX, i64::MIN));
    assert_eq!(a.add(Vec2::new(-1, 1)), Vec2::new(i64::MAX - 1, i64::MIN + 1));
}

#[test]
fn length_is_floor_of_square_root() {
    assert_eq!(Vec2::new(3, 4).len(), 5);
    assert_eq!(Vec2::new(1, 1).len(), 1); // sqrt(2) floors to 1
    assert_eq!(Vec2::new(0, 0).len(), 0);
    assert_eq!(Vec2::new(-5, 12).len(), 13);
    assert_eq!(Vec2::new(i64::MIN, i64::MIN).len(), 13043817825332782212);
}

#[test]
fn scaled_to_points_the_same_way() {
    // (6, 8) has length 10; scaled to 5 it is exactly (3, 4).
    assert_eq!(Vec2::new(6, 8).scaled_to(5), Vec2::new(3, 4));
    // A negative magnitude flips the direction.
    assert_eq!(Vec2::new(6, 8).scaled_to(-5), Vec2::new(-3, -4));
    // The zero vector stays zero: the deliberate edge-case policy.
    assert_eq!(Vec2::new(0, 0).scaled_to(100), Vec2::new(0, 0));
}

#[test]
fn limit_caps_only_long_vectors() {
    let v = Vec2::new(6, 8);
    assert_eq!(v.limit(20), v);
    assert_eq!(v.limit(10), v);
    assert_eq!(v.limit(5), Vec2::new(3, 4));
    assert_eq!(Vec2::new(0, 0).limit(3), Vec2::new(0, 0));
}

#[test]
fn apply_force_has_no_effect_until_integrate() {
    let mut e = Entity::new(Vec2::new(7, 7), Vec2::new(1, 1), 3);
    e.apply_force(Vec2::new(30, -30));
    assert_eq!(e.position, Vec2::new(7, 7));
    assert_eq!(e.velocity, Vec2::new(1, 1));
    assert_eq!(e.accumulator, Vec2::new(30, -30));
}

#[test]
fn integrate_is_semi_implicit_euler() {
    let mut e = Entity::new(Vec2::new(0, 0), Vec2::new(3, 4), 2);
    e.apply_force(Vec2::new(10, -7));
    e.integrate();
    // velocity += accumulator / mass (truncating); position += new velocity.
    assert_eq!(e.velocity, Vec2::new(8, 1)); // 3 + 10/2, 4 + (-7)/2 = 4 - 3
    assert_eq!(e.position, Vec2::new(8, 1));
    assert_eq!(e.accumulator, Vec2::new(0, 0));
    assert_eq!(e.mass, 2);
}

#[test]
fn no_force_straight_line() {
    // Zero net force, nonzero velocity: position is exactly initial + n * v.
    let initial = Vec2::new(100, -50);
    let velocity = Vec2::new(7, -3);
    let mut e = Entity::new(initial, velocity, 1);
    let n = 25;
    for _ in 0..n {
        e.integrate();
    }
    assert_eq!(e.position, Vec2::new(100 + n * 7, -50 + n * -3));
    assert_eq!(e.velocity, velocity);
}

#[test]
fn oriented_rotation_clamps_spin() {
    let mut o = Orientation { angle: 0, angular_velocity: 0 };
    o.integrate(25, 10, 3);
    assert_eq!(o, Orientation { angle: 2, angular_velocity: 2 });
    o.integrate(25, 10, 3);
    // 2 + 2 clamps to the max spin of 3.
    assert_eq!(o, Orientation { angle: 5, angular_velocity: 3 });
    o.integrate(-100, 10, 3);
    // 3 - 10 clamps to -3.
    assert_eq!(o, Orientation { angle: 2, angular_velocity: -3 });
}

#[test]
fn walker_moves_by_injected_step() {
    let mut w = Walker::new();
    assert_eq!((w.x, w.y), (0, 0));
    w.set_position(10, 20);
    assert_eq!((w.x, w.y), (10, 20));
    w.update(1, -1);
    assert_eq!((w.x, w.y), (11, 19));
}

#[test]
fn walker_steps_toward_target() {
    let mut w = Walker::new();
    w.set_position(5, 5);
    w.step_toward(100, -100);
    assert_eq!((w.x, w.y), (6, 4));
    w.step_toward(6, 4);
    assert_eq!((w.x, w.y), (6, 4));
}

#[test]
fn walker_random_step_is_bounded() {
    let mut rng = SmallRng::seed_from_u64(7);
    let mut w = Walker::new();
    for _ in 0..200 {
        let (px, py) = (w.x, w.y);
        w.update_random(&mut rng);
        assert!((w.x - px).abs() <= 1);
        assert!((w.y - py).abs() <= 1);
    }
}

#[test]
fn walker_random_walk_is_reproducible() {
    let mut r1 = SmallRng::seed_from_u64(99);
    let mut r2 = SmallRng::seed_from_u64(99);
    let mut w1 = Walker::new();
    let mut w2 = Walker::new();
    for _ in 0..100 {
        w1.update_random(&mut r1);
        w2.update_random(&mut r2);
    }
    assert_eq!((w1.x, w1.y), (w2.x, w2.y));
}

#[test]
fn oscillator_accumulates_phase() {
    let mut o = Oscillator::new(Vec2::new(5, -3), Vec2::new(100, 200));
    o.update();
    o.update();
    assert_eq!(o.angle, Vec2::new(10, -6));
    assert_eq!(o.amplitude, Vec2::new(100, 200));
}

#[test]
fn wave_fills_phases_from_theta() {
    // One full turn every 16000 units of row: dx = 360000 * 8 / 16000 = 180.
    let mut w = Wave::new(Vec2::new(50, 180), 4, 20, 16000, 42);
    assert_eq!(w.dx, 180);
    assert_eq!(w.phases, vec![0, 0, 0, 0]);
    w.update();
    assert_eq!(w.theta, 42);
    assert_eq!(w.phases, vec![42, 222, 402, 582]);
    w.update();
    assert_eq!(w.theta, 84);
    assert_eq!(w.phases, vec![84, 264, 444, 624]);
}

#[test]
fn spaceship_damps_and_caps_velocity() {
    let mut s = Spaceship::new(Vec2::new(0, 0), Ratio::new(1, 1), 6);
    s.apply_force(Vec2::new(10, 0));
    s.update();
    // (10, 0) capped at the top speed 6.
    assert_eq!(s.velocity, Vec2::new(6, 0));
    assert_eq!(s.location, Vec2::new(6, 0));
    assert_eq!(s.accumulator, Vec2::new(0, 0));

    let mut d = Spaceship::new(Vec2::new(0, 0), Ratio::new(1, 2), 100);
    d.apply_force(Vec2::new(10, 0));
    d.update();
    // Damping halves the velocity before it carries the location.
    assert_eq!(d.velocity, Vec2::new(5, 0));
}

#[test]
fn spaceship_turns_and_thrusts() {
    let mut s = Spaceship::new(Vec2::new(0, 0), Ratio::new(1, 1), 100);
    s.turn(90_000);
    s.turn(-30_000);
    assert_eq!(s.heading, 60_000);
    // Thrust along (0, -1): magnitude SHIP_THRUST straight up.
    s.thrust(Vec2::new(0, -1));
    assert_eq!(s.accumulator, Vec2::new(0, -nature2d::oscillation::SHIP_THRUST));
}

#[test]
fn spaceship_wraps_with_buffer() {
    let mut s = Spaceship::new(Vec2::new(141, 50), Ratio::new(1, 1), 100);
    s.check_edges(Vec2::new(100, 100), 40);
    assert_eq!(s.location, Vec2::new(-40, 50));
    let mut t = Spaceship::new(Vec2::new(-41, 50), Ratio::new(1, 1), 100);
    t.check_edges(Vec2::new(100, 100), 40);
    assert_eq!(t.location, Vec2::new(140, 50));
}

#[test]
fn spring_pulls_bob_toward_rest_length() {
    let spring = Spring::new(Vec2::new(0, 0), 50, Ratio::new(1, 2));
    let mut bob = Bob::new(Vec2::new(0, 100), 5, Ratio::new(1, 1));
    spring.connect(&mut bob);
    // delta = 100 - 50 = 50; magnitude = 50 / 2 = 25; pointing back up.
    assert_eq!(bob.accumulator, Vec2::new(0, -25));
    bob.update();
    assert_eq!(bob.velocity, Vec2::new(0, -5)); // -25 / mass 5
    assert_eq!(bob.position, Vec2::new(0, 95));
    assert_eq!(bob.accumulator, Vec2::new(0, 0));
}

#[test]
fn bob_damping_scales_velocity() {
    let mut bob = Bob::new(Vec2::new(0, 0), 1, Ratio::new(1, 2));
    bob.apply_force(Vec2::new(8, 0));
    bob.update();
    assert_eq!(bob.velocity, Vec2::new(4, 0));
    assert_eq!(bob.position, Vec2::new(4, 0));
}

#[test]
fn random_direction_is_bounded_and_reproducible() {
    let mut r1 = SmallRng::seed_from_u64(5);
    let mut r2 = SmallRng::seed_from_u64(5);
    for _ in 0..100 {
        let v = nature2d::rng::vec2_random(&mut r1);
        let w = nature2d::rng::vec2_random(&mut r2);
        assert_eq!(v, w);
        // Scaling divides by the floored length, so a short draw can
        // overshoot the target length by up to a factor of two.
        assert!(v.len() <= 2 * nature2d::rng::DIRECTION_LEN as u64);
    }
}
