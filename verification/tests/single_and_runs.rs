//! Single-body motion, the seeded spawner, and run-level determinism.

use nbody::body::Body;
use nbody::fixed::SCALE;
use nbody::particle::{run_ticks, separated, tick};
use nbody::spawn::spawn_bodies;
use nbody::vec3::Vec3;

#[test]
fn isolated_body_feels_no_force_and_moves_linearly() {
    // One body with velocity (0.1, 0, -0.05): no peers, so its position
    // advances by exactly v * dt every tick.
    let g = SCALE;
    let dt = SCALE / 100;
    let mut bodies = vec![Body::new(
        SCALE,
        Vec3::new(SCALE, 2 * SCALE, 3 * SCALE),
        Vec3::new(SCALE / 10, 0, -SCALE / 20),
        dt,
    )];
    // last_position encodes the starting velocity: v * dt = (0.001, 0, -0.0005).
    assert_eq!(bodies[0].last_position.x, SCALE - 1_000_000);
    assert_eq!(bodies[0].last_position.y, 2 * SCALE);
    assert_eq!(bodies[0].last_position.z, 3 * SCALE + 500_000);
    for k in 1..=10i64 {
        tick(&mut bodies, g, dt);
        assert_eq!(bodies[0].position.x, SCALE + k * 1_000_000);
        assert_eq!(bodies[0].position.y, 2 * SCALE);
        assert_eq!(bodies[0].position.z, 3 * SCALE - k * 500_000);
        assert_eq!(bodies[0].acceleration.x, 0);
        assert_eq!(bodies[0].acceleration.y, 0);
        assert_eq!(bodies[0].acceleration.z, 0);
    }
}

#[test]
fn body_new_derives_last_position() {
    let dt = SCALE / 100;
    let b = Body::new(
        5 * SCALE,
        Vec3::new(-SCALE, SCALE / 2, 0),
        Vec3::new(2 * SCALE, -SCALE, SCALE / 4),
        dt,
    );
    assert_eq!(b.mass, 5 * SCALE);
    assert_eq!(b.position.x, -SCALE);
    // position - velocity * dt.
    assert_eq!(b.last_position.x, -SCALE - 20_000_000);
    assert_eq!(b.last_position.y, SCALE / 2 + 10_000_000);
    assert_eq!(b.last_position.z, -2_500_000);
    assert_eq!((b.acceleration.x, b.acceleration.y, b.acceleration.z), (0, 0, 0));
}

#[test]
fn spawner_is_seeded_and_well_formed() {
    let dt = SCALE / 100;
    let a = spawn_bodies(32, 0xfeed, dt);
    let b = spawn_bodies(32, 0xfeed, dt);
    let c = spawn_bodies(32, 0xbeef, dt);
    assert_eq!(a.len(), 32);
    // The same seed reproduces the same population, bit for bit.
    assert_eq!(a, b);
    // A different seed gives a different population.
    assert_ne!(a, c);
    for body in &a {
        assert!(body.mass > 0);
        assert!(body.position.x.abs() <= 15 * SCALE);
        assert!(body.position.y.abs() <= 15 * SCALE);
        assert!(body.position.z.abs() <= 15 * SCALE);
        assert_eq!((body.acceleration.x, body.acceleration.y, body.acceleration.z), (0, 0, 0));
    }
    // Not all bodies landed on one spot.
    assert!(a.iter().any(|x| x.position != a[0].position));
}

#[test]
fn identical_runs_give_identical_trajectories() {
    // The physics core is deterministic: two independent runs from the same
    // initial set and constants agree bit for bit, tick for tick.
    let g = SCALE / 1000;
    let dt = SCALE / 100;
    let mut first = spawn_bodies(24, 42, dt);
    let mut second = spawn_bodies(24, 42, dt);
    assert_eq!(first, second);
    let t1 = run_ticks(&mut first, g, dt, 20);
    let t2 = run_ticks(&mut second, g, dt, 20);
    assert_eq!(t1, t2);
    assert_eq!(first, second);
}

#[test]
fn run_ticks_runs_all_ticks_of_a_separated_system() {
    let g = SCALE;
    let dt = SCALE / 100;
    let mut bodies = vec![
        Body::new(SCALE, Vec3::new(-SCALE, 0, 0), Vec3::zero(), dt),
        Body::new(SCALE, Vec3::new(SCALE, 0, 0), Vec3::zero(), dt),
    ];
    let ran = run_ticks(&mut bodies, g, dt, 5);
    assert_eq!(ran, 5);
    assert!(separated(&bodies));
    // The same trajectory as five explicit ticks.
    let mut again = vec![
        Body::new(SCALE, Vec3::new(-SCALE, 0, 0), Vec3::zero(), dt),
        Body::new(SCALE, Vec3::new(SCALE, 0, 0), Vec3::zero(), dt),
    ];
    for _ in 0..5 {
        tick(&mut again, g, dt);
    }
    assert_eq!(bodies, again);
}
