//! Fixed-point scalar arithmetic.
//!
//! A scalar is an `i64` counting multiples of `1 / SCALE` of a simulation
//! unit, so the raw value `1_000_000_000` stands for `1.0`. Products and
//! quotients are computed exactly in 128-bit intermediates, rounded toward
//! zero, and clamped to the symmetric range `[-MAX_RAW, MAX_RAW]`. The
//! symmetric clamp and round-toward-zero make every operation odd in each
//! argument, which the mirror-symmetry laws of the simulation rely on.

use vstd::prelude::*;

verus! {

/// Raw sub-units per simulation unit: a raw scalar `r` stands for `r / SCALE`.
pub const SCALE: i64 = 1_000_000_000;

/// Largest raw magnitude a scalar result may carry. The range is symmetric
/// (it excludes `i64::MIN`), so negation never overflows nor clamps.
pub const MAX_RAW: i64 = 0x7fff_ffff_ffff_ffff;

/// A raw value the arithmetic can produce: magnitude at most `MAX_RAW`.
pub open spec fn in_range(x: int) -> bool {
    -(MAX_RAW as int) <= x <= MAX_RAW as int
}

/// Clamp to the representable range, symmetrically about zero.
pub open spec fn sat(x: int) -> int {
    if x > MAX_RAW as int {
        MAX_RAW as int
    } else if x < -(MAX_RAW as int) {
        -(MAX_RAW as int)
    } else {
        x
    }
}

/// Division rounded toward zero (the rounding of Rust's `/` on machine
/// integers), defined here for positive divisors.
pub open spec fn tdiv(a: int, b: int) -> int
    recommends
        b > 0,
{
    if a >= 0 {
        a / b
    } else {
        -((-a) / b)
    }
}

/// What `fx_add` returns: the exact sum, clamped.
pub open spec fn add_s(a: int, b: int) -> int {
    sat(a + b)
}

/// What `fx_sub` returns: the exact difference, clamped.
pub open spec fn sub_s(a: int, b: int) -> int {
    sat(a - b)
}

/// What `fx_neg` returns: the exact negation, clamped (never actually clamps
/// for an in-range argument, since the range is symmetric).
pub open spec fn neg_s(a: int) -> int {
    sat(-a)
}

/// What `fx_mul` returns: the exact product rescaled by `SCALE`, rounded
/// toward zero and clamped.
pub open spec fn mul_s(a: int, b: int) -> int {
    sat(tdiv(a * b, SCALE as int))
}

/// What `fx_div` returns: the exact quotient rescaled by `SCALE`, rounded
/// toward zero and clamped.
pub open spec fn div_s(a: int, b: int) -> int
    recommends
        b > 0,
{
    sat(tdiv(a * (SCALE as int), b))
}

/// The clamp is symmetric about zero, so it commutes with negation.
pub proof fn lemma_sat_neg(x: int)
    ensures
        sat(-x) == -sat(x),
{
}

/// Rounding toward zero commutes with negating the dividend.
pub proof fn lemma_tdiv_neg(a: int, b: int)
    requires
        b > 0,
    ensures
        tdiv(-a, b) == -tdiv(a, b),
{
    if a == 0 {
        vstd::arithmetic::div_mod::lemma_div_of0(b);
    }
}

/// Saturating addition is odd: `add_s(-a, -b) == -add_s(a, b)`.
pub proof fn lemma_add_s_neg(a: int, b: int)
    ensures
        add_s(-a, -b) == -add_s(a, b),
{
    lemma_sat_neg(a + b);
}

/// Saturating subtraction is odd: `sub_s(-a, -b) == -sub_s(a, b)`.
pub proof fn lemma_sub_s_neg(a: int, b: int)
    ensures
        sub_s(-a, -b) == -sub_s(a, b),
{
    lemma_sat_neg(a - b);
}

/// Fixed-point multiplication is odd in its first argument.
pub proof fn lemma_mul_s_neg(a: int, b: int)
    ensures
        mul_s(-a, b) == -mul_s(a, b),
{
    assert((-a) * b == -(a * b)) by (nonlinear_arith);
    lemma_tdiv_neg(a * b, SCALE as int);
    lemma_sat_neg(tdiv(a * b, SCALE as int));
}

/// A square never scales to a negative value: `mul_s(x, x) >= 0`.
pub proof fn lemma_sq_nonneg(x: int)
    ensures
        mul_s(x, x) >= 0,
{
    assert(x * x >= 0) by (nonlinear_arith);
    vstd::arithmetic::div_mod::lemma_div_pos_is_pos(x * x, SCALE as int);
}

/// Clamp a 128-bit intermediate back to a raw scalar.
fn clamp_i128(x: i128) -> (r: i64)
    ensures
        r == sat(x as int),
{
    if x > MAX_RAW as i128 {
        MAX_RAW
    } else if x < -(MAX_RAW as i128) {
        -MAX_RAW
    } else {
        x as i64
    }
}

/// Division of 128-bit intermediates rounded toward zero, via unsigned
/// magnitudes.
fn tdiv_i128(a: i128, b: i128) -> (r: i128)
    requires
        b > 0,
        a > i128::MIN,
    ensures
        r == tdiv(a as int, b as int),
{
    if a >= 0 {
        let q: u128 = (a as u128) / (b as u128);
        proof {
            vstd::arithmetic::div_mod::lemma_div_pos_is_pos(a as int, b as int);
            vstd::arithmetic::div_mod::lemma_div_nonincreasing(a as int, b as int);
        }
        q as i128
    } else {
        let m: u128 = (-a) as u128;
        let q: u128 = m / (b as u128);
        proof {
            vstd::arithmetic::div_mod::lemma_div_pos_is_pos(m as int, b as int);
            vstd::arithmetic::div_mod::lemma_div_nonincreasing(m as int, b as int);
        }
        -(q as i128)
    }
}

/// Saturating fixed-point addition.
pub fn fx_add(a: i64, b: i64) -> (r: i64)
    ensures
        r == add_s(a as int, b as int),
        in_range(r as int),
{
    clamp_i128((a as i128) + (b as i128))
}

/// Saturating fixed-point subtraction.
pub fn fx_sub(a: i64, b: i64) -> (r: i64)
    ensures
        r == sub_s(a as int, b as int),
        in_range(r as int),
{
    clamp_i128((a as i128) - (b as i128))
}

/// Saturating fixed-point negation.
pub fn fx_neg(a: i64) -> (r: i64)
    ensures
        r == neg_s(a as int),
        in_range(r as int),
{
    clamp_i128(-(a as i128))
}

/// Saturating fixed-point multiplication: `(a * b) / SCALE`, rounded toward
/// zero.
pub fn fx_mul(a: i64, b: i64) -> (r: i64)
    ensures
        r == mul_s(a as int, b as int),
        in_range(r as int),
{
    proof {
        assert((a as int) * (b as int) > i128::MIN && (a as int) * (b as int)
            <= i128::MAX) by (nonlinear_arith)
            requires
                -0x8000_0000_0000_0000 <= a as int <= 0x7fff_ffff_ffff_ffff,
                -0x8000_0000_0000_0000 <= b as int <= 0x7fff_ffff_ffff_ffff,
        ;
    }
    let p: i128 = (a as i128) * (b as i128);
    clamp_i128(tdiv_i128(p, SCALE as i128))
}

/// Saturating fixed-point division: `(a * SCALE) / b`, rounded toward zero.
/// The divisor must be strictly positive; the caller rules out the singular
/// case.
pub fn fx_div(a: i64, b: i64) -> (r: i64)
    requires
        b > 0,
    ensures
        r == div_s(a as int, b as int),
        in_range(r as int),
{
    proof {
        assert((a as int) * (SCALE as int) > i128::MIN && (a as int) * (SCALE as int)
            <= i128::MAX) by (nonlinear_arith)
            requires
                -0x8000_0000_0000_0000 <= a as int <= 0x7fff_ffff_ffff_ffff,
                SCALE as int == 1_000_000_000,
        ;
    }
    let p: i128 = (a as i128) * (SCALE as i128);
    clamp_i128(tdiv_i128(p, b as i128))
}

} // verus!
