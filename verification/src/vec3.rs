//! Three-component fixed-point vectors, and their mathematical view.

use crate::fixed::{add_s, fx_add, fx_mul, fx_neg, fx_sub, in_range, mul_s, neg_s, sub_s};
use vstd::prelude::*;

verus! {

/// The mathematical value of a vector: one unbounded integer per component,
/// each counting raw fixed-point sub-units.
pub struct V3 {
    pub x: int,
    pub y: int,
    pub z: int,
}

/// A fixed-point vector, the position / velocity / acceleration type of the
/// simulation.
#[derive(Clone, Copy, Debug, PartialEq, Eq, Structural)]
pub struct Vec3 {
    pub x: i64,
    pub y: i64,
    pub z: i64,
}

impl View for Vec3 {
    type V = V3;

    open spec fn view(&self) -> V3 {
        V3 { x: self.x as int, y: self.y as int, z: self.z as int }
    }
}

/// Every component has representable magnitude.
pub open spec fn v3_in_range(v: V3) -> bool {
    in_range(v.x) && in_range(v.y) && in_range(v.z)
}

/// The zero vector.
pub open spec fn v3_zero() -> V3 {
    V3 { x: 0, y: 0, z: 0 }
}

/// Componentwise saturating sum.
pub open spec fn v3_add(a: V3, b: V3) -> V3 {
    V3 { x: add_s(a.x, b.x), y: add_s(a.y, b.y), z: add_s(a.z, b.z) }
}

/// Componentwise saturating difference.
pub open spec fn v3_sub(a: V3, b: V3) -> V3 {
    V3 { x: sub_s(a.x, b.x), y: sub_s(a.y, b.y), z: sub_s(a.z, b.z) }
}

/// Componentwise saturating negation.
pub open spec fn v3_neg(a: V3) -> V3 {
    V3 { x: neg_s(a.x), y: neg_s(a.y), z: neg_s(a.z) }
}

/// Each component scaled by the fixed-point scalar `s`.
pub open spec fn v3_scale(a: V3, s: int) -> V3 {
    V3 { x: mul_s(a.x, s), y: mul_s(a.y, s), z: mul_s(a.z, s) }
}

/// The squared length `x*x + y*y + z*z` in fixed-point arithmetic.
pub open spec fn v3_len_sq(a: V3) -> int {
    add_s(add_s(mul_s(a.x, a.x), mul_s(a.y, a.y)), mul_s(a.z, a.z))
}

/// `b` is the exact componentwise negation of `a` (no clamping involved).
pub open spec fn v3_exact_neg(a: V3, b: V3) -> bool {
    b.x == -a.x && b.y == -a.y && b.z == -a.z
}

/// Scaling two exactly opposite vectors by the same scalar keeps them
/// exactly opposite: the rounding and the clamp are both odd.
pub proof fn lemma_scale_exact_neg(a: V3, b: V3, s: int)
    requires
        v3_exact_neg(a, b),
    ensures
        v3_exact_neg(v3_scale(a, s), v3_scale(b, s)),
{
    crate::fixed::lemma_mul_s_neg(a.x, s);
    crate::fixed::lemma_mul_s_neg(a.y, s);
    crate::fixed::lemma_mul_s_neg(a.z, s);
}

/// Adding exactly opposite vectors to exactly opposite vectors keeps the
/// sums exactly opposite.
pub proof fn lemma_add_exact_neg(a1: V3, b1: V3, a2: V3, b2: V3)
    requires
        v3_exact_neg(a1, b1),
        v3_exact_neg(a2, b2),
    ensures
        v3_exact_neg(v3_add(a1, a2), v3_add(b1, b2)),
{
    crate::fixed::lemma_add_s_neg(a1.x, a2.x);
    crate::fixed::lemma_add_s_neg(a1.y, a2.y);
    crate::fixed::lemma_add_s_neg(a1.z, a2.z);
}

/// Subtracting exactly opposite vectors from exactly opposite vectors keeps
/// the differences exactly opposite.
pub proof fn lemma_sub_exact_neg(a1: V3, b1: V3, a2: V3, b2: V3)
    requires
        v3_exact_neg(a1, b1),
        v3_exact_neg(a2, b2),
    ensures
        v3_exact_neg(v3_sub(a1, a2), v3_sub(b1, b2)),
{
    crate::fixed::lemma_sub_s_neg(a1.x, a2.x);
    crate::fixed::lemma_sub_s_neg(a1.y, a2.y);
    crate::fixed::lemma_sub_s_neg(a1.z, a2.z);
}

/// A fixed-point squared length is never negative.
pub proof fn lemma_len_sq_nonneg(v: V3)
    ensures
        v3_len_sq(v) >= 0,
{
    crate::fixed::lemma_sq_nonneg(v.x);
    crate::fixed::lemma_sq_nonneg(v.y);
    crate::fixed::lemma_sq_nonneg(v.z);
}

impl Vec3 {
    /// The zero vector.
    pub fn zero() -> (r: Vec3)
        ensures
            r@ == v3_zero(),
    {
        Vec3 { x: 0, y: 0, z: 0 }
    }

    /// Construct from raw fixed-point components.
    pub fn new(x: i64, y: i64, z: i64) -> (r: Vec3)
        ensures
            r@ == (V3 { x: x as int, y: y as int, z: z as int }),
    {
        Vec3 { x, y, z }
    }

    /// Saturating vector sum.
    pub fn add(self, other: Vec3) -> (r: Vec3)
        ensures
            r@ == v3_add(self@, other@),
    {
        Vec3 {
            x: fx_add(self.x, other.x),
            y: fx_add(self.y, other.y),
            z: fx_add(self.z, other.z),
        }
    }

    /// Saturating vector difference.
    pub fn sub(self, other: Vec3) -> (r: Vec3)
        ensures
            r@ == v3_sub(self@, other@),
    {
        Vec3 {
            x: fx_sub(self.x, other.x),
            y: fx_sub(self.y, other.y),
            z: fx_sub(self.z, other.z),
        }
    }

    /// Saturating vector negation.
    pub fn neg(self) -> (r: Vec3)
        ensures
            r@ == v3_neg(self@),
    {
        Vec3 { x: fx_neg(self.x), y: fx_neg(self.y), z: fx_neg(self.z) }
    }

    /// Scale by a fixed-point scalar.
    pub fn scale(self, s: i64) -> (r: Vec3)
        ensures
            r@ == v3_scale(self@, s as int),
    {
        Vec3 { x: fx_mul(self.x, s), y: fx_mul(self.y, s), z: fx_mul(self.z, s) }
    }

    /// Squared length in fixed-point arithmetic.
    pub fn length_squared(self) -> (r: i64)
        ensures
            r == v3_len_sq(self@),
    {
        fx_add(fx_add(fx_mul(self.x, self.x), fx_mul(self.y, self.y)), fx_mul(self.z, self.z))
    }
}

} // verus!
