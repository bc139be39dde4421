//! The stated laws of the simulation core, proved against the specs of
//! `particle`.
//!
//! The fixed-point arithmetic rounds toward zero and clamps symmetrically,
//! so every law that rests on sign symmetry holds exactly. Laws that in
//! exact real arithmetic hold for arbitrary masses hold here exactly when
//! the interacting masses are equal; with unequal masses the two rescalings
//! round independently, and the balance is exact only before rounding
//! (`lemma_pair_balance_exact` states that form).

use crate::body::{body_velocity, BodyV};
use crate::fixed::{in_range, mul_s};
use crate::particle::{
    accs_zero, apply_pair, force_unit, inner_pass, outer_pass, spec_integrate, spec_interact,
    spec_run, spec_tick, step_body,
};
use crate::vec3::{
    lemma_add_exact_neg, lemma_scale_exact_neg, lemma_sub_exact_neg, v3_add, v3_exact_neg,
    v3_scale, v3_sub, v3_zero, V3,
};
use vstd::prelude::*;

verus! {

/// A pair interaction computes the force per unit mass once and applies it
/// to both bodies with opposite sign, each scaled by the other body's mass;
/// no other field of any body changes. Weighted by the masses, the two
/// unrounded contributions balance exactly:
/// `(fu * m_j) * m_i == (fu * m_i) * m_j` componentwise.
pub proof fn lemma_pair_symmetry(s: Seq<BodyV>, g: int, i: int, j: int)
    requires
        0 <= i < j < s.len(),
    ensures
        ({
            let fu = force_unit(s[i].position, s[j].position, g);
            let r = apply_pair(s, g, i, j);
            &&& r.len() == s.len()
            &&& r[i].acceleration == v3_add(s[i].acceleration, v3_scale(fu, s[j].mass))
            &&& r[j].acceleration == v3_sub(s[j].acceleration, v3_scale(fu, s[i].mass))
            &&& forall|k: int| 0 <= k < s.len() && k != i && k != j ==> #[trigger] r[k] == s[k]
            &&& r[i].mass == s[i].mass && r[i].position == s[i].position
                && r[i].last_position == s[i].last_position
            &&& r[j].mass == s[j].mass && r[j].position == s[j].position
                && r[j].last_position == s[j].last_position
            &&& (fu.x * s[j].mass) * s[i].mass == (fu.x * s[i].mass) * s[j].mass
            &&& (fu.y * s[j].mass) * s[i].mass == (fu.y * s[i].mass) * s[j].mass
            &&& (fu.z * s[j].mass) * s[i].mass == (fu.z * s[i].mass) * s[j].mass
        }),
{
    let fu = force_unit(s[i].position, s[j].position, g);
    assert((fu.x * s[j].mass) * s[i].mass == (fu.x * s[i].mass) * s[j].mass)
        by (nonlinear_arith);
    assert((fu.y * s[j].mass) * s[i].mass == (fu.y * s[i].mass) * s[j].mass)
        by (nonlinear_arith);
    assert((fu.z * s[j].mass) * s[i].mass == (fu.z * s[i].mass) * s[j].mass)
        by (nonlinear_arith);
}

/// For two bodies of equal mass whose accelerations start clean, one pair
/// interaction leaves their accelerations exactly opposite: the same
/// contribution is added to one and subtracted from the other.
pub proof fn lemma_pair_equal_mass_opposite(s: Seq<BodyV>, g: int, i: int, j: int)
    requires
        0 <= i < j < s.len(),
        s[i].mass == s[j].mass,
        s[i].acceleration == v3_zero(),
        s[j].acceleration == v3_zero(),
    ensures
        v3_exact_neg(apply_pair(s, g, i, j)[i].acceleration, apply_pair(s, g, i, j)[j].acceleration),
{
    let fu = force_unit(s[i].position, s[j].position, g);
    let c = v3_scale(fu, s[j].mass);
    crate::fixed::lemma_sat_neg(c.x);
    crate::fixed::lemma_sat_neg(c.y);
    crate::fixed::lemma_sat_neg(c.z);
}

/// An isolated body receives no acceleration from a force-accumulation
/// pass: with no peers there are no pairs, and the pass is the identity.
pub proof fn lemma_single_body_no_force(s: Seq<BodyV>, g: int)
    requires
        s.len() == 1,
    ensures
        spec_interact(s, g) == s,
{
    assert(inner_pass(s, g, 1, 0, 1) == s);
    assert(outer_pass(s, g, 1, 1) == s);
    assert(outer_pass(s, g, 1, 0) == outer_pass(inner_pass(s, g, 1, 0, 1), g, 1, 1));
}

/// The integration step never saturates on this body: the doubled position,
/// the Verlet sum, and the encoded velocity all stay in range.
pub open spec fn step_in_range(b: BodyV, dt2: int) -> bool {
    &&& in_range(b.position.x + b.position.x)
    &&& in_range(b.position.y + b.position.y)
    &&& in_range(b.position.z + b.position.z)
    &&& in_range(b.position.x + b.position.x - b.last_position.x)
    &&& in_range(b.position.y + b.position.y - b.last_position.y)
    &&& in_range(b.position.z + b.position.z - b.last_position.z)
    &&& in_range(
        b.position.x + b.position.x - b.last_position.x + mul_s(b.acceleration.x, dt2),
    )
    &&& in_range(
        b.position.y + b.position.y - b.last_position.y + mul_s(b.acceleration.y, dt2),
    )
    &&& in_range(
        b.position.z + b.position.z - b.last_position.z + mul_s(b.acceleration.z, dt2),
    )
    &&& in_range(b.position.x - b.last_position.x)
    &&& in_range(b.position.y - b.last_position.y)
    &&& in_range(b.position.z - b.last_position.z)
}

/// A body with zero acceleration moves at constant velocity: one Verlet
/// step advances its position by exactly the displacement of the previous
/// tick, and the encoded velocity is unchanged — so under repeated
/// integrator passes the position keeps advancing linearly. Holds whenever
/// the step does not saturate.
pub proof fn lemma_zero_acceleration_linear_motion(b: BodyV, dt2: int)
    requires
        b.acceleration == v3_zero(),
        step_in_range(b, dt2),
    ensures
        step_body(b, dt2).position == (V3 {
            x: b.position.x + b.position.x - b.last_position.x,
            y: b.position.y + b.position.y - b.last_position.y,
            z: b.position.z + b.position.z - b.last_position.z,
        }),
        body_velocity(step_body(b, dt2)) == body_velocity(b),
        step_body(b, dt2).acceleration == v3_zero(),
        step_body(b, dt2).mass == b.mass,
{
    crate::fixed::lemma_sq_nonneg(0);
    assert(mul_s(0, dt2) == 0) by {
        vstd::arithmetic::div_mod::lemma_div_of0(crate::fixed::SCALE as int);
        assert(0 * dt2 == 0) by (nonlinear_arith);
    }
}

/// After any integration pass, every body's acceleration is exactly the
/// zero vector.
pub proof fn lemma_acceleration_reset(s: Seq<BodyV>, dt: int)
    ensures
        accs_zero(spec_integrate(s, dt)),
{
}

/// For exactly two bodies, the accumulation pass is the single pair
/// interaction.
pub proof fn lemma_interact_two(s: Seq<BodyV>, g: int)
    requires
        s.len() == 2,
    ensures
        spec_interact(s, g) == apply_pair(s, g, 0, 1),
{
    let p = apply_pair(s, g, 0, 1);
    assert(inner_pass(p, g, 2, 0, 2) == p);
    assert(inner_pass(s, g, 2, 0, 1) == inner_pass(p, g, 2, 0, 2));
    assert(inner_pass(p, g, 2, 1, 2) == p);
    assert(outer_pass(p, g, 2, 2) == p);
    assert(outer_pass(p, g, 2, 1) == outer_pass(inner_pass(p, g, 2, 1, 2), g, 2, 2));
    assert(outer_pass(s, g, 2, 0) == outer_pass(inner_pass(s, g, 2, 0, 1), g, 2, 1));
}

/// Two bodies of equal mass placed exactly opposite each other — positions,
/// previous positions and (clean) accelerations all mirrored through the
/// origin — stay exactly opposite through a full tick: every operation of
/// the pass is odd, so the centre of mass remains pinned at the origin.
pub proof fn lemma_mirror_symmetry_tick(s: Seq<BodyV>, g: int, dt: int)
    requires
        s.len() == 2,
        s[0].mass == s[1].mass,
        v3_exact_neg(s[0].position, s[1].position),
        v3_exact_neg(s[0].last_position, s[1].last_position),
        s[0].acceleration == v3_zero(),
        s[1].acceleration == v3_zero(),
    ensures
        spec_tick(s, g, dt).len() == 2,
        v3_exact_neg(spec_tick(s, g, dt)[0].position, spec_tick(s, g, dt)[1].position),
        v3_exact_neg(spec_tick(s, g, dt)[0].last_position, spec_tick(s, g, dt)[1].last_position),
        spec_tick(s, g, dt)[0].acceleration == v3_zero(),
        spec_tick(s, g, dt)[1].acceleration == v3_zero(),
        spec_tick(s, g, dt)[0].mass == s[0].mass,
        spec_tick(s, g, dt)[1].mass == s[1].mass,
{
    lemma_interact_two(s, g);
    lemma_pair_equal_mass_opposite(s, g, 0, 1);
    let r = apply_pair(s, g, 0, 1);
    let dt2 = mul_s(dt, dt);
    lemma_add_exact_neg(r[0].position, r[1].position, r[0].position, r[1].position);
    lemma_sub_exact_neg(
        v3_add(r[0].position, r[0].position),
        v3_add(r[1].position, r[1].position),
        r[0].last_position,
        r[1].last_position,
    );
    lemma_scale_exact_neg(r[0].acceleration, r[1].acceleration, dt2);
    lemma_add_exact_neg(
        v3_sub(v3_add(r[0].position, r[0].position), r[0].last_position),
        v3_sub(v3_add(r[1].position, r[1].position), r[1].last_position),
        v3_scale(r[0].acceleration, dt2),
        v3_scale(r[1].acceleration, dt2),
    );
    assert(spec_tick(s, g, dt)[0] == step_body(r[0], dt2));
    assert(spec_tick(s, g, dt)[1] == step_body(r[1], dt2));
}

/// The mirror pair stays mirrored for all subsequent ticks: chaining the
/// per-tick law, the two bodies' positions remain reflections of each other
/// through the origin after any number of ticks, and the centre of mass
/// never leaves the origin.
pub proof fn lemma_mirror_symmetry_run(s: Seq<BodyV>, g: int, dt: int, n: nat)
    requires
        s.len() == 2,
        s[0].mass == s[1].mass,
        v3_exact_neg(s[0].position, s[1].position),
        v3_exact_neg(s[0].last_position, s[1].last_position),
        s[0].acceleration == v3_zero(),
        s[1].acceleration == v3_zero(),
    ensures
        spec_run(s, g, dt, n).len() == 2,
        v3_exact_neg(spec_run(s, g, dt, n)[0].position, spec_run(s, g, dt, n)[1].position),
        v3_exact_neg(
            spec_run(s, g, dt, n)[0].last_position,
            spec_run(s, g, dt, n)[1].last_position,
        ),
        spec_run(s, g, dt, n)[0].acceleration == v3_zero(),
        spec_run(s, g, dt, n)[1].acceleration == v3_zero(),
        spec_run(s, g, dt, n)[0].mass == s[0].mass,
        spec_run(s, g, dt, n)[1].mass == s[1].mass,
    decreases n,
{
    if n > 0 {
        lemma_mirror_symmetry_tick(s, g, dt);
        lemma_mirror_symmetry_run(spec_tick(s, g, dt), g, dt, (n - 1) as nat);
    }
}

/// Componentwise exact (unclamped) vector sum, for stating conserved sums.
pub open spec fn v3_iadd(a: V3, b: V3) -> V3 {
    V3 { x: a.x + b.x, y: a.y + b.y, z: a.z + b.z }
}

/// A body's momentum, estimated as the mass-weighted displacement covered
/// over the last tick.
pub open spec fn body_momentum(b: BodyV) -> V3 {
    V3 {
        x: b.mass * (b.position.x - b.last_position.x),
        y: b.mass * (b.position.y - b.last_position.y),
        z: b.mass * (b.position.z - b.last_position.z),
    }
}

/// Total system momentum: the exact integer sum of the bodies' momenta.
pub open spec fn total_momentum(s: Seq<BodyV>) -> V3
    decreases s.len(),
{
    if s.len() == 0 {
        v3_zero()
    } else {
        v3_iadd(total_momentum(s.drop_last()), body_momentum(s.last()))
    }
}

/// The total momentum of a two-body collection, written out.
pub proof fn lemma_total_momentum_two(s: Seq<BodyV>)
    requires
        s.len() == 2,
    ensures
        total_momentum(s) == v3_iadd(
            v3_iadd(v3_zero(), body_momentum(s[0])),
            body_momentum(s[1]),
        ),
{
    let s1 = s.drop_last();
    let s0 = s1.drop_last();
    assert(s0.len() == 0);
    assert(total_momentum(s0) == v3_zero());
    assert(s1.last() == s[0]);
    assert(total_momentum(s1) == v3_iadd(total_momentum(s0), body_momentum(s1.last())));
    assert(s.last() == s[1]);
    assert(total_momentum(s) == v3_iadd(total_momentum(s1), body_momentum(s.last())));
}

/// A closed two-body system of equal masses conserves total momentum
/// exactly over a tick, whenever the integration arithmetic does not
/// saturate: the pair's contributions are one vector applied with opposite
/// signs, and rounding it toward zero is odd, so the two displacement
/// corrections cancel. Conservation per tick chains over any run whose
/// every tick satisfies the same bound.
pub proof fn lemma_momentum_conserved_two_body(s: Seq<BodyV>, g: int, dt: int)
    requires
        s.len() == 2,
        s[0].mass == s[1].mass,
        s[0].acceleration == v3_zero(),
        s[1].acceleration == v3_zero(),
        step_in_range(spec_interact(s, g)[0], mul_s(dt, dt)),
        step_in_range(spec_interact(s, g)[1], mul_s(dt, dt)),
    ensures
        total_momentum(spec_tick(s, g, dt)) == total_momentum(s),
{
    lemma_interact_two(s, g);
    lemma_pair_equal_mass_opposite(s, g, 0, 1);
    let r = apply_pair(s, g, 0, 1);
    let dt2 = mul_s(dt, dt);
    let r2 = spec_tick(s, g, dt);
    lemma_scale_exact_neg(r[0].acceleration, r[1].acceleration, dt2);
    let d = v3_scale(r[0].acceleration, dt2);
    assert(r2[0] == step_body(r[0], dt2));
    assert(r2[1] == step_body(r[1], dt2));
    assert(r2[0].position.x == r[0].position.x + r[0].position.x - r[0].last_position.x + d.x);
    assert(r2[1].position.x == r[1].position.x + r[1].position.x - r[1].last_position.x - d.x);
    let m = s[0].mass;
    let p0 = s[0].position;
    let l0 = s[0].last_position;
    let p1 = s[1].position;
    let l1 = s[1].last_position;
    assert(m * ((p0.x + p0.x - l0.x + d.x) - p0.x) + m * ((p1.x + p1.x - l1.x - d.x) - p1.x)
        == m * (p0.x - l0.x) + m * (p1.x - l1.x)) by (nonlinear_arith);
    assert(m * ((p0.y + p0.y - l0.y + d.y) - p0.y) + m * ((p1.y + p1.y - l1.y - d.y) - p1.y)
        == m * (p0.y - l0.y) + m * (p1.y - l1.y)) by (nonlinear_arith);
    assert(m * ((p0.z + p0.z - l0.z + d.z) - p0.z) + m * ((p1.z + p1.z - l1.z - d.z) - p1.z)
        == m * (p0.z - l0.z) + m * (p1.z - l1.z)) by (nonlinear_arith);
    lemma_total_momentum_two(r2);
    lemma_total_momentum_two(s);
}

/// The physics core is deterministic: the same initial bodies and the same
/// constants yield the same trajectory, tick for tick. (The exec driver
/// `run_ticks` returns exactly `spec_run` of its input, so two independent
/// runs agree bit for bit.)
pub proof fn lemma_run_deterministic(s1: Seq<BodyV>, s2: Seq<BodyV>, g: int, dt: int, n: nat)
    requires
        s1 == s2,
    ensures
        spec_run(s1, g, dt, n) == spec_run(s2, g, dt, n),
{
}

} // verus!
