//! Two-body scenarios: the concrete mirror scenario, action–reaction
//! balance, momentum conservation, and the singular-configuration guard.

use nbody::body::Body;
use nbody::fixed::SCALE;
use nbody::particle::{integrate, interact_bodies, run_ticks, separated, tick};
use nbody::vec3::Vec3;

fn mirror_pair() -> Vec<Body> {
    // Masses 1.0 and 1.0, positions (-1, 0, 0) and (1, 0, 0), zero
    // velocity.
    let dt = SCALE / 100;
    vec![
        Body::new(SCALE, Vec3::new(-SCALE, 0, 0), Vec3::zero(), dt),
        Body::new(SCALE, Vec3::new(SCALE, 0, 0), Vec3::zero(), dt),
    ]
}

#[test]
fn concrete_two_body_scenario() {
    // G = 1.0, dt = 0.01: after one tick each body has moved 0.00005 units
    // strictly toward the origin along the x-axis, in exact mirror
    // symmetry.
    let g = SCALE;
    let dt = SCALE / 100;
    let mut bodies = mirror_pair();
    assert!(separated(&bodies));
    tick(&mut bodies, g, dt);
    assert_eq!(bodies[0].position.x, -999_950_000);
    assert_eq!(bodies[1].position.x, 999_950_000);
    assert_eq!(bodies[0].position.x, -bodies[1].position.x);
    assert_eq!((bodies[0].position.y, bodies[0].position.z), (0, 0));
    assert_eq!((bodies[1].position.y, bodies[1].position.z), (0, 0));
    // Both moved strictly toward the origin.
    assert!(bodies[0].position.x > -SCALE);
    assert!(bodies[1].position.x < SCALE);
    // last_position rolled forward to the pre-tick positions.
    assert_eq!(bodies[0].last_position.x, -SCALE);
    assert_eq!(bodies[1].last_position.x, SCALE);
}

#[test]
fn mirror_symmetry_holds_over_many_ticks() {
    let g = SCALE;
    let dt = SCALE / 100;
    let mut bodies = vec![
        Body::new(
            2 * SCALE,
            Vec3::new(-2 * SCALE, SCALE, 0),
            Vec3::new(0, -SCALE / 10, SCALE / 20),
            dt,
        ),
        Body::new(
            2 * SCALE,
            Vec3::new(2 * SCALE, -SCALE, 0),
            Vec3::new(0, SCALE / 10, -SCALE / 20),
            dt,
        ),
    ];
    for _ in 0..50 {
        assert!(separated(&bodies));
        tick(&mut bodies, g, dt);
        assert_eq!(bodies[0].position.x, -bodies[1].position.x);
        assert_eq!(bodies[0].position.y, -bodies[1].position.y);
        assert_eq!(bodies[0].position.z, -bodies[1].position.z);
        assert_eq!(bodies[0].last_position.x, -bodies[1].last_position.x);
        assert_eq!(bodies[0].last_position.y, -bodies[1].last_position.y);
        assert_eq!(bodies[0].last_position.z, -bodies[1].last_position.z);
    }
}

#[test]
fn accumulator_balances_action_and_reaction() {
    // Masses 1.0 and 2.0 one unit either side of the origin: the shared
    // force per unit mass is 0.5, so the accelerations come out +1.0 and
    // -0.5, and weighted by the masses they cancel exactly.
    let g = SCALE;
    let dt = SCALE / 100;
    let mut bodies = vec![
        Body::new(SCALE, Vec3::new(-SCALE, 0, 0), Vec3::zero(), dt),
        Body::new(2 * SCALE, Vec3::new(SCALE, 0, 0), Vec3::zero(), dt),
    ];
    interact_bodies(&mut bodies, g);
    assert_eq!(bodies[0].acceleration.x, SCALE);
    assert_eq!(bodies[1].acceleration.x, -SCALE / 2);
    let m0 = bodies[0].mass as i128;
    let m1 = bodies[1].mass as i128;
    assert_eq!(
        bodies[0].acceleration.x as i128 * m0,
        -(bodies[1].acceleration.x as i128) * m1
    );
}

#[test]
fn acceleration_cleared_by_integrator() {
    let g = SCALE;
    let dt = SCALE / 100;
    let mut bodies = mirror_pair();
    interact_bodies(&mut bodies, g);
    assert_ne!(bodies[0].acceleration.x, 0);
    assert_ne!(bodies[1].acceleration.x, 0);
    integrate(&mut bodies, dt);
    for b in &bodies {
        assert_eq!((b.acceleration.x, b.acceleration.y, b.acceleration.z), (0, 0, 0));
    }
}

fn momentum(bodies: &[Body]) -> (i128, i128, i128) {
    let mut p = (0i128, 0i128, 0i128);
    for b in bodies {
        let m = b.mass as i128;
        p.0 += m * (b.position.x as i128 - b.last_position.x as i128);
        p.1 += m * (b.position.y as i128 - b.last_position.y as i128);
        p.2 += m * (b.position.z as i128 - b.last_position.z as i128);
    }
    p
}

#[test]
fn momentum_conserved_for_equal_masses() {
    let g = SCALE;
    let dt = SCALE / 100;
    let mut bodies = vec![
        Body::new(
            3 * SCALE,
            Vec3::new(-SCALE, SCALE / 2, SCALE / 4),
            Vec3::new(SCALE / 10, 0, -SCALE / 50),
            dt,
        ),
        Body::new(
            3 * SCALE,
            Vec3::new(2 * SCALE, -SCALE, SCALE / 2),
            Vec3::new(0, SCALE / 20, 0),
            dt,
        ),
    ];
    let before = momentum(&bodies);
    for _ in 0..25 {
        assert!(separated(&bodies));
        tick(&mut bodies, g, dt);
        assert_eq!(momentum(&bodies), before);
    }
}

#[test]
fn coincident_bodies_are_rejected() {
    let dt = SCALE / 100;
    let bodies = vec![
        Body::new(SCALE, Vec3::new(SCALE, SCALE, 0), Vec3::zero(), dt),
        Body::new(SCALE, Vec3::new(SCALE, SCALE, 0), Vec3::zero(), dt),
    ];
    assert!(!separated(&bodies));
    let mut bodies = bodies;
    // The driver refuses to run any tick from a singular configuration.
    let ran = run_ticks(&mut bodies, SCALE, dt, 10);
    assert_eq!(ran, 0);
}

#[test]
fn nearly_coincident_bodies_are_rejected() {
    // Distinct positions whose fixed-point squared distance still
    // underflows to zero count as coincident for the force.
    let dt = SCALE / 100;
    let bodies = vec![
        Body::new(SCALE, Vec3::new(0, 0, 0), Vec3::zero(), dt),
        Body::new(SCALE, Vec3::new(100, 0, 0), Vec3::zero(), dt),
    ];
    assert!(!separated(&bodies));
}
