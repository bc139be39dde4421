//! The simulation core: pairwise gravitational force accumulation and
//! position-Verlet integration over a fixed tick.
//!
//! Both passes are specified exactly: `spec_interact` folds the pair updates
//! in the same order as the nested loops of `interact_bodies`, and
//! `spec_integrate` maps the Verlet step over every body. A tick is the two
//! passes back to back, accumulation first.

use crate::body::{Body, BodyV};
use crate::fixed::{div_s, mul_s};
use crate::vec3::{lemma_len_sq_nonneg, v3_add, v3_len_sq, v3_scale, v3_sub, v3_zero, V3, Vec3};
use vstd::prelude::*;

verus! {

/// The mathematical value of a body collection.
pub open spec fn views(s: Seq<Body>) -> Seq<BodyV> {
    Seq::new(s.len(), |k: int| s[k]@)
}

/// No two bodies coincide under the fixed-point squared distance. This is
/// the precondition that keeps the force finite: at distance zero the force
/// is singular, and the simulation does not tolerate it.
pub open spec fn separated_spec(s: Seq<BodyV>) -> bool {
    forall|a: int, b: int|
        0 <= a < b < s.len() ==> v3_len_sq(
            v3_sub(#[trigger] s[b].position, #[trigger] s[a].position),
        ) != 0
}

/// The gravitational force per unit mass that the body at `pj` exerts on the
/// body at `pi`: `delta * (g / |delta|^2)`.
pub open spec fn force_unit(pi: V3, pj: V3, g: int) -> V3 {
    let delta = v3_sub(pj, pi);
    let f = div_s(g, v3_len_sq(delta));
    v3_scale(delta, f)
}

/// One pair interaction: the force per unit mass is computed once for the
/// pair, then added to body `i`'s acceleration scaled by body `j`'s mass and
/// subtracted from body `j`'s acceleration scaled by body `i`'s mass.
pub open spec fn apply_pair(s: Seq<BodyV>, g: int, i: int, j: int) -> Seq<BodyV>
    recommends
        0 <= i < j < s.len(),
{
    let fu = force_unit(s[i].position, s[j].position, g);
    let ci = v3_scale(fu, s[j].mass);
    let cj = v3_scale(fu, s[i].mass);
    let bi = BodyV {
        mass: s[i].mass,
        position: s[i].position,
        last_position: s[i].last_position,
        acceleration: v3_add(s[i].acceleration, ci),
    };
    let bj = BodyV {
        mass: s[j].mass,
        position: s[j].position,
        last_position: s[j].last_position,
        acceleration: v3_sub(s[j].acceleration, cj),
    };
    s.update(i, bi).update(j, bj)
}

/// The pairs `(i, j)` for `j` in `j0..n`, folded in order.
pub open spec fn inner_pass(s: Seq<BodyV>, g: int, n: int, i: int, j0: int) -> Seq<BodyV>
    decreases n - j0,
{
    if j0 < n {
        inner_pass(apply_pair(s, g, i, j0), g, n, i, j0 + 1)
    } else {
        s
    }
}

/// The pairs with first index in `i0..n`, folded in order.
pub open spec fn outer_pass(s: Seq<BodyV>, g: int, n: int, i0: int) -> Seq<BodyV>
    decreases n - i0,
{
    if 0 <= i0 < n {
        outer_pass(inner_pass(s, g, n, i0, i0 + 1), g, n, i0 + 1)
    } else {
        s
    }
}

/// What a force-accumulation pass over all `n * (n - 1) / 2` unordered pairs
/// does to the collection.
pub open spec fn spec_interact(s: Seq<BodyV>, g: int) -> Seq<BodyV> {
    outer_pass(s, g, s.len() as int, 0)
}

/// One Verlet step of a single body, for a fixed squared timestep `dt2`:
/// `new_position = 2 * position - last_position + acceleration * dt2`, then
/// the acceleration is cleared and the pre-step position becomes the new
/// `last_position`.
pub open spec fn step_body(b: BodyV, dt2: int) -> BodyV {
    BodyV {
        mass: b.mass,
        position: v3_add(
            v3_sub(v3_add(b.position, b.position), b.last_position),
            v3_scale(b.acceleration, dt2),
        ),
        last_position: b.position,
        acceleration: v3_zero(),
    }
}

/// What an integration pass does: every body takes one Verlet step with
/// `dt2 = dt * dt`.
pub open spec fn spec_integrate(s: Seq<BodyV>, dt: int) -> Seq<BodyV> {
    Seq::new(s.len(), |k: int| step_body(s[k], mul_s(dt, dt)))
}

/// One full simulation tick: accumulate forces, then integrate.
pub open spec fn spec_tick(s: Seq<BodyV>, g: int, dt: int) -> Seq<BodyV> {
    spec_integrate(spec_interact(s, g), dt)
}

/// Check that no two bodies coincide; `interact_bodies` and `tick` require
/// this of their input.
pub fn separated(bodies: &Vec<Body>) -> (r: bool)
    ensures
        r == separated_spec(views(bodies@)),
{
    let n = bodies.len();
    let mut i: usize = 0;
    while i < n
        invariant
            i <= n,
            n == bodies@.len(),
            forall|a: int, b: int|
                0 <= a < b < n && a < i ==> v3_len_sq(
                    v3_sub(#[trigger] views(bodies@)[b].position,
                    #[trigger] views(bodies@)[a].position),
                ) != 0,
        decreases n - i,
    {
        let mut j: usize = i + 1;
        while j < n
            invariant
                i < j <= n,
                n == bodies@.len(),
                forall|a: int, b: int|
                    0 <= a < b < n && a < i ==> v3_len_sq(
                        v3_sub(#[trigger] views(bodies@)[b].position,
                        #[trigger] views(bodies@)[a].position),
                    ) != 0,
                forall|b: int|
                    i < b < j ==> v3_len_sq(
                        v3_sub(#[trigger] views(bodies@)[b].position,
                        views(bodies@)[i as int].position),
                    ) != 0,
            decreases n - j,
        {
            let d2 = bodies[j].position.sub(bodies[i].position).length_squared();
            if d2 == 0 {
                proof {
                    assert(v3_len_sq(
                        v3_sub(views(bodies@)[j as int].position,
                        views(bodies@)[i as int].position),
                    ) == 0);
                }
                return false;
            }
            j += 1;
        }
        i += 1;
    }
    true
}

/// The fields the force accumulator never writes: everything but the
/// acceleration.
pub open spec fn same_frame(a: BodyV, b: BodyV) -> bool {
    a.mass == b.mass && a.position == b.position && a.last_position == b.last_position
}

/// The force accumulator: visit every unordered pair of bodies exactly once;
/// compute the pair's force per unit mass from the gravitational constant
/// `g` and the squared distance; add it to one body's acceleration scaled by
/// the other body's mass, and subtract it from the other's scaled by the
/// first's. Mutates only accelerations; masses and positions are read, never
/// written.
pub fn interact_bodies(bodies: &mut Vec<Body>, g: i64)
    requires
        separated_spec(views(old(bodies)@)),
    ensures
        views(final(bodies)@) == spec_interact(views(old(bodies)@), g as int),
        final(bodies)@.len() == old(bodies)@.len(),
        forall|k: int|
            0 <= k < final(bodies)@.len() ==> same_frame(
                #[trigger] views(final(bodies)@)[k],
                views(old(bodies)@)[k],
            ),
{
    let n = bodies.len();
    let ghost s0 = views(bodies@);
    let ghost target = outer_pass(s0, g as int, n as int, 0);
    let mut i: usize = 0;
    while i < n
        invariant
            i <= n,
            n == bodies@.len(),
            s0.len() == n,
            separated_spec(s0),
            outer_pass(views(bodies@), g as int, n as int, i as int) == target,
            forall|k: int| 0 <= k < n ==> same_frame(#[trigger] views(bodies@)[k], s0[k]),
        decreases n - i,
    {
        let mut j: usize = i + 1;
        while j < n
            invariant
                i < j <= n,
                i < n,
                n == bodies@.len(),
                s0.len() == n,
                separated_spec(s0),
                outer_pass(
                    inner_pass(views(bodies@), g as int, n as int, i as int, j as int),
                    g as int,
                    n as int,
                    i as int + 1,
                ) == target,
                forall|k: int| 0 <= k < n ==> same_frame(#[trigger] views(bodies@)[k], s0[k]),
            decreases n - j,
        {
            let bi = bodies[i];
            let bj = bodies[j];
            proof {
                assert(same_frame(views(bodies@)[i as int], s0[i as int]));
                assert(same_frame(views(bodies@)[j as int], s0[j as int]));
                lemma_len_sq_nonneg(v3_sub(bj@.position, bi@.position));
                assert(v3_len_sq(v3_sub(s0[j as int].position, s0[i as int].position)) != 0);
            }
            let delta = bj.position.sub(bi.position);
            let d2 = delta.length_squared();
            let f = crate::fixed::fx_div(g, d2);
            let fu = delta.scale(f);
            let ci = fu.scale(bj.mass);
            let cj = fu.scale(bi.mass);
            let ghost prev = views(bodies@);
            bodies.set(
                i,
                Body {
                    mass: bi.mass,
                    position: bi.position,
                    last_position: bi.last_position,
                    acceleration: bi.acceleration.add(ci),
                },
            );
            bodies.set(
                j,
                Body {
                    mass: bj.mass,
                    position: bj.position,
                    last_position: bj.last_position,
                    acceleration: bj.acceleration.sub(cj),
                },
            );
            proof {
                assert(views(bodies@) =~= apply_pair(prev, g as int, i as int, j as int));
            }
            j += 1;
        }
        i += 1;
    }
}

/// The integrator: advance every body's position one tick by the Verlet
/// scheme, clear its acceleration, and record the pre-step position as
/// `last_position`. Never fails; every body's acceleration reads as the zero
/// vector afterwards.
pub fn integrate(bodies: &mut Vec<Body>, dt: i64)
    ensures
        views(final(bodies)@) == spec_integrate(views(old(bodies)@), dt as int),
        final(bodies)@.len() == old(bodies)@.len(),
        forall|k: int|
            0 <= k < final(bodies)@.len() ==> (#[trigger] views(final(bodies)@)[k]).acceleration
                == v3_zero(),
        forall|k: int|
            0 <= k < final(bodies)@.len() ==> (#[trigger] views(final(bodies)@)[k]).last_position
                == views(old(bodies)@)[k].position,
{
    let dt_sq = crate::fixed::fx_mul(dt, dt);
    let n = bodies.len();
    let ghost s0 = views(bodies@);
    let mut k: usize = 0;
    while k < n
        invariant
            k <= n,
            n == bodies@.len(),
            s0.len() == n,
            dt_sq as int == mul_s(dt as int, dt as int),
            forall|m: int| 0 <= m < k ==> views(bodies@)[m] == step_body(s0[m], dt_sq as int),
            forall|m: int| k <= m < n ==> views(bodies@)[m] == s0[m],
        decreases n - k,
    {
        let b = bodies[k];
        let new_pos = b.position.add(b.position).sub(b.last_position).add(
            b.acceleration.scale(dt_sq),
        );
        let ghost prev = bodies@;
        bodies.set(
            k,
            Body {
                mass: b.mass,
                position: new_pos,
                last_position: b.position,
                acceleration: Vec3::zero(),
            },
        );
        proof {
            assert(b@ == s0[k as int]);
            assert(views(bodies@)[k as int] == step_body(s0[k as int], dt_sq as int));
            assert(forall|m: int|
                0 <= m < n && m != k ==> #[trigger] views(bodies@)[m] == views(prev)[m]);
        }
        k += 1;
    }
    proof {
        assert(views(bodies@) =~= spec_integrate(s0, dt as int));
    }
}
/// Every body's acceleration reads as the zero vector: the state in which a
/// force-accumulation pass must begin, and in which the integrator leaves
/// the collection.
pub open spec fn accs_zero(s: Seq<BodyV>) -> bool {
    forall|k: int| 0 <= k < s.len() ==> (#[trigger] s[k]).acceleration == v3_zero()
}

/// One full simulation tick: accumulate forces over all pairs, then
/// integrate every body. The accumulator must start from clean (all-zero)
/// accelerations, and the integrator hands them back clean.
pub fn tick(bodies: &mut Vec<Body>, g: i64, dt: i64)
    requires
        separated_spec(views(old(bodies)@)),
        accs_zero(views(old(bodies)@)),
    ensures
        views(final(bodies)@) == spec_tick(views(old(bodies)@), g as int, dt as int),
        final(bodies)@.len() == old(bodies)@.len(),
        accs_zero(views(final(bodies)@)),
{
    interact_bodies(bodies, g);
    integrate(bodies, dt);
}

/// The state after `n` ticks from `s`.
pub open spec fn spec_run(s: Seq<BodyV>, g: int, dt: int, n: nat) -> Seq<BodyV>
    decreases n,
{
    if n == 0 {
        s
    } else {
        spec_run(spec_tick(s, g, dt), g, dt, (n - 1) as nat)
    }
}

/// Every state from `s` up to (but not including) the `n`-th tick's result
/// is separated, so each of those `n` ticks is well defined.
pub open spec fn sep_through(s: Seq<BodyV>, g: int, dt: int, n: nat) -> bool
    decreases n,
{
    if n == 0 {
        true
    } else {
        separated_spec(s) && sep_through(spec_tick(s, g, dt), g, dt, (n - 1) as nat)
    }
}

/// Running one tick longer is one more tick on the result.
pub proof fn lemma_run_snoc(s: Seq<BodyV>, g: int, dt: int, t: nat)
    ensures
        spec_run(s, g, dt, (t + 1) as nat) == spec_tick(spec_run(s, g, dt, t), g, dt),
    decreases t,
{
    assert(spec_run(s, g, dt, (t + 1) as nat) == spec_run(spec_tick(s, g, dt), g, dt, t));
    if t > 0 {
        lemma_run_snoc(spec_tick(s, g, dt), g, dt, (t - 1) as nat);
        assert(spec_run(s, g, dt, t) == spec_run(spec_tick(s, g, dt), g, dt, (t - 1) as nat));
    } else {
        assert(spec_run(spec_tick(s, g, dt), g, dt, 0) == spec_tick(s, g, dt));
        assert(spec_run(s, g, dt, 0) == s);
    }
}

/// A separated run extends by one tick when its final state is separated.
pub proof fn lemma_sep_through_snoc(s: Seq<BodyV>, g: int, dt: int, t: nat)
    requires
        sep_through(s, g, dt, t),
        separated_spec(spec_run(s, g, dt, t)),
    ensures
        sep_through(s, g, dt, (t + 1) as nat),
    decreases t,
{
    assert(sep_through(s, g, dt, (t + 1) as nat) == (separated_spec(s) && sep_through(
        spec_tick(s, g, dt),
        g,
        dt,
        t,
    )));
    if t > 0 {
        assert(spec_run(s, g, dt, t) == spec_run(spec_tick(s, g, dt), g, dt, (t - 1) as nat));
        lemma_sep_through_snoc(spec_tick(s, g, dt), g, dt, (t - 1) as nat);
    } else {
        assert(sep_through(spec_tick(s, g, dt), g, dt, 0));
        assert(spec_run(s, g, dt, 0) == s);
    }
}

/// Within a separated run, every intermediate state is separated.
pub proof fn lemma_sep_through_run(s: Seq<BodyV>, g: int, dt: int, n: nat, t: nat)
    requires
        t < n,
        sep_through(s, g, dt, n),
    ensures
        separated_spec(spec_run(s, g, dt, t)),
    decreases t,
{
    if t > 0 {
        lemma_sep_through_run(spec_tick(s, g, dt), g, dt, (n - 1) as nat, (t - 1) as nat);
    }
}

/// Drive the simulation for up to `n` ticks, stopping early only if two
/// bodies come to coincide (which would make the next force singular).
/// Returns the number of ticks actually run; the final state is exactly the
/// `spec_run` of the input for that many ticks, so the trajectory is a
/// function of the initial bodies and constants alone.
pub fn run_ticks(bodies: &mut Vec<Body>, g: i64, dt: i64, n: usize) -> (t: usize)
    requires
        accs_zero(views(old(bodies)@)),
    ensures
        t <= n,
        sep_through(views(old(bodies)@), g as int, dt as int, t as nat),
        views(final(bodies)@) == spec_run(views(old(bodies)@), g as int, dt as int, t as nat),
        final(bodies)@.len() == old(bodies)@.len(),
        accs_zero(views(final(bodies)@)),
        t < n ==> !separated_spec(views(final(bodies)@)),
        sep_through(views(old(bodies)@), g as int, dt as int, n as nat) ==> t == n,
{
    let ghost s0 = views(bodies@);
    let mut t: usize = 0;
    while t < n
        invariant
            t <= n,
            s0 == views(old(bodies)@),
            bodies@.len() == old(bodies)@.len(),
            views(bodies@) == spec_run(s0, g as int, dt as int, t as nat),
            sep_through(s0, g as int, dt as int, t as nat),
            accs_zero(views(bodies@)),
        decreases n - t,
    {
        let sep = separated(bodies);
        if !sep {
            proof {
                if sep_through(s0, g as int, dt as int, n as nat) {
                    lemma_sep_through_run(s0, g as int, dt as int, n as nat, t as nat);
                }
            }
            return t;
        }
        proof {
            lemma_run_snoc(s0, g as int, dt as int, t as nat);
            lemma_sep_through_snoc(s0, g as int, dt as int, t as nat);
        }
        tick(bodies, g, dt);
        t += 1;
    }
    t
}

} // verus!
