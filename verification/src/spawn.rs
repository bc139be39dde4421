//! Random initial conditions: a seeded generator produces the starting
//! population of bodies, once, before the tick loop. The randomness stays
//! here, outside the deterministic accumulate/integrate core: whatever set
//! of bodies comes back, the physics of a run is a function of that set and
//! the constants alone.

use crate::body::{body_wf, Body};
use crate::fixed::SCALE;
use crate::particle::{accs_zero, views};
use crate::vec3::Vec3;
use vstd::prelude::*;

verus! {

/// rand's standard generator, declared so that a value of it can be held
/// and passed through verified signatures; its state is opaque here.
#[verifier::external_type_specification]
#[verifier::external_body]
pub struct ExStdRng(rand::rngs::StdRng);

/// Relies on rand's `StdRng::seed_from_u64` (via `SeedableRng`): builds a
/// generator whose whole stream is a function of the seed. Nothing is
/// stated about the opaque state.
#[verifier::external_body]
fn rng_from_seed(seed: u64) -> rand::rngs::StdRng {
    <rand::rngs::StdRng as rand::SeedableRng>::seed_from_u64(seed)
}

/// Relies on rand's `RngCore::next_u64`: hands back the generator's next
/// value and advances its state. Any `u64` may come back; the callers below
/// are verified for every outcome.
#[verifier::external_body]
fn next_u64(rng: &mut rand::rngs::StdRng) -> u64 {
    rand::RngCore::next_u64(rng)
}

/// Starting positions are drawn within this many raw sub-units of the
/// origin per axis (fifteen simulation units, as wide as the original
/// scene).
pub const SPAWN_POS_RANGE: i64 = 15 * SCALE;

/// Starting velocities are drawn within one simulation unit per tick-second
/// on each axis.
pub const SPAWN_VEL_RANGE: i64 = SCALE;

/// Masses are drawn from `(0, 3]` simulation units.
pub const SPAWN_MASS_MAX: i64 = 3 * SCALE;

/// Map a uniform draw onto `[-range, range]`.
fn sample_signed(raw: u64, range: i64) -> (r: i64)
    requires
        0 <= range <= 0x3fff_ffff_ffff_ffff,
    ensures
        -range <= r <= range,
{
    let span: u64 = 2 * (range as u64) + 1;
    let m = raw % span;
    (m as i64) - range
}

/// Map a uniform draw onto `[1, max]`: a strictly positive mass.
fn sample_mass(raw: u64, max: i64) -> (r: i64)
    requires
        1 <= max,
    ensures
        1 <= r <= max,
{
    let m = raw % (max as u64);
    (m as i64) + 1
}

/// Produce the initial population: `count` well-formed bodies with strictly
/// positive masses, positions and velocities drawn from the seeded
/// generator within the spawn ranges, and clean accelerations. Each body's
/// `last_position` encodes its starting velocity over the timestep `dt`.
pub fn spawn_bodies(count: usize, seed: u64, dt: i64) -> (bodies: Vec<Body>)
    ensures
        bodies@.len() == count,
        forall|k: int| 0 <= k < count ==> body_wf(#[trigger] views(bodies@)[k]),
        accs_zero(views(bodies@)),
{
    let mut rng = rng_from_seed(seed);
    let mut bodies: Vec<Body> = Vec::new();
    let mut k: usize = 0;
    while k < count
        invariant
            k <= count,
            bodies@.len() == k,
            forall|m: int| 0 <= m < k ==> body_wf(#[trigger] views(bodies@)[m]),
            forall|m: int|
                0 <= m < k ==> (#[trigger] views(bodies@)[m]).acceleration
                    == crate::vec3::v3_zero(),
        decreases count - k,
    {
        let mass = sample_mass(next_u64(&mut rng), SPAWN_MASS_MAX);
        let px = sample_signed(next_u64(&mut rng), SPAWN_POS_RANGE);
        let py = sample_signed(next_u64(&mut rng), SPAWN_POS_RANGE);
        let pz = sample_signed(next_u64(&mut rng), SPAWN_POS_RANGE);
        let vx = sample_signed(next_u64(&mut rng), SPAWN_VEL_RANGE);
        let vy = sample_signed(next_u64(&mut rng), SPAWN_VEL_RANGE);
        let vz = sample_signed(next_u64(&mut rng), SPAWN_VEL_RANGE);
        let b = Body::new(mass, Vec3::new(px, py, pz), Vec3::new(vx, vy, vz), dt);
        let ghost prev = bodies@;
        bodies.push(b);
        proof {
            assert(views(bodies@)[k as int] == b@);
            assert(forall|m: int|
                0 <= m < k ==> #[trigger] views(bodies@)[m] == views(prev)[m]);
        }
        k += 1;
    }
    bodies
}

} // verus!
