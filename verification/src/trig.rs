//! Fixed-point trigonometry on turn-based angles.
//!
//! An angle counts micro-turns: [`SCALE`] micro-turns make one full
//! revolution. Sine and cosine are the piecewise-parabolic wave that agrees
//! with the exact functions at every quarter turn (`sin 0 == 0`,
//! `sin`  of a quarter turn `== 1`, and so on) and stays within a few percent
//! of them in between; results are scaled by [`SCALE`].

use crate::fixed::SCALE;
use vstd::arithmetic::div_mod::{
    lemma_fundamental_div_mod, lemma_fundamental_div_mod_converse_mod, lemma_mod_multiples_basic,
};
use vstd::prelude::*;

verus! {

/// Micro-turns in half a revolution.
pub const HALF_TURN: i64 = 500_000;

/// Micro-turns in a quarter revolution.
pub const QUARTER_TURN: i64 = 250_000;

/// The rising parabolic arch: for `u` in `[0, HALF_TURN]` this is
/// `16 * u * (HALF_TURN - u)` rescaled, which runs 0 → `SCALE` → 0.
pub open spec fn sin_arch(u: int) -> int {
    16 * u * (HALF_TURN - u) / (SCALE as int)
}

/// Sine of an angle already normalized into `[0, SCALE)` micro-turns:
/// the positive arch on the first half turn, its mirror image below zero
/// on the second.
pub open spec fn sin_norm(u: int) -> int {
    if u <= HALF_TURN {
        sin_arch(u)
    } else {
        -sin_arch(u - HALF_TURN)
    }
}

/// Sine of any micro-turn angle, scaled by [`SCALE`]. `%` on `int` is
/// Euclidean, so the normalization lands in `[0, SCALE)` for either sign.
pub open spec fn sin_uturn(angle: int) -> int {
    sin_norm(angle % (SCALE as int))
}

/// Cosine of any micro-turn angle, scaled by [`SCALE`]: sine a quarter
/// turn ahead.
pub open spec fn cos_uturn(angle: int) -> int {
    sin_uturn(angle + QUARTER_TURN)
}

/// Normalizes a micro-turn angle into `[0, SCALE)`, the Euclidean remainder.
fn norm_uturn(angle: i64) -> (u: i64)
    ensures
        u == (angle as int) % (SCALE as int),
        0 <= u < SCALE,
{
    if angle >= 0 {
        let u = ((angle as u64) % (SCALE as u64)) as i64;
        proof {
            assert(u == (angle as int) % (SCALE as int));
        }
        u
    } else {
        let mag: u64 = (-(angle as i128)) as u64;
        let rm: u64 = mag % (SCALE as u64);
        proof {
            assert(mag == -(angle as int));
            lemma_fundamental_div_mod(mag as int, SCALE as int);
        }
        if rm == 0 {
            proof {
                let k = (mag as int) / (SCALE as int);
                assert(angle as int == (-k) * (SCALE as int)) by (nonlinear_arith)
                    requires
                        angle as int == -(mag as int),
                        mag as int == (SCALE as int) * k,
                ;
                lemma_mod_multiples_basic(-k, SCALE as int);
            }
            0
        } else {
            let u = (SCALE as u64 - rm) as i64;
            proof {
                let k = (mag as int) / (SCALE as int);
                assert(angle as int == (-k - 1) * (SCALE as int) + (SCALE - rm)) by (nonlinear_arith)
                    requires
                        angle as int == -(mag as int),
                        mag as int == (SCALE as int) * k + rm,
                ;
                lemma_fundamental_div_mod_converse_mod(
                    angle as int,
                    SCALE as int,
                    -k - 1,
                    SCALE - rm,
                );
            }
            u
        }
    }
}

/// The arch on `[0, HALF_TURN]`, computed in unsigned arithmetic.
fn sin_arch_fx(u: i64) -> (r: i64)
    requires
        0 <= u <= HALF_TURN,
    ensures
        r == sin_arch(u as int),
        0 <= r <= SCALE,
{
    let uu: u64 = u as u64;
    proof {
        assert(0 <= 16 * (u as int) * (HALF_TURN - u as int) <= 1_000_000_000_000)
            by (nonlinear_arith)
            requires
                0 <= u <= HALF_TURN,
        ;
        assert(16 * (uu as int) * (HALF_TURN - uu as int) == 16 * (u as int) * (HALF_TURN
            - u as int));
    }
    let r: u64 = 16 * uu * (HALF_TURN as u64 - uu) / (SCALE as u64);
    proof {
        vstd::arithmetic::div_mod::lemma_div_is_ordered(
            16 * (uu as int) * (HALF_TURN - uu as int),
            1_000_000_000_000,
            SCALE as int,
        );
    }
    r as i64
}

/// Sine of a micro-turn angle, scaled by [`SCALE`].
pub fn sin_fx(angle: i64) -> (r: i64)
    ensures
        r == sin_uturn(angle as int),
        -SCALE <= r <= SCALE,
{
    let u = norm_uturn(angle);
    if u <= HALF_TURN {
        sin_arch_fx(u)
    } else {
        let a = sin_arch_fx(u - HALF_TURN);
        -a
    }
}

/// Cosine of a micro-turn angle, scaled by [`SCALE`].
pub fn cos_fx(angle: i64) -> (r: i64)
    ensures
        r == cos_uturn(angle as int),
        -SCALE <= r <= SCALE,
{
    let u = norm_uturn(angle);
    let r = sin_fx(u + QUARTER_TURN);
    proof {
        let m = SCALE as int;
        let q = QUARTER_TURN as int;
        let a = angle as int;
        vstd::arithmetic::div_mod::lemma_small_mod(QUARTER_TURN as nat, SCALE as nat);
        vstd::arithmetic::div_mod::lemma_small_mod(u as nat, SCALE as nat);
        vstd::arithmetic::div_mod::lemma_add_mod_noop(a, q, m);
        vstd::arithmetic::div_mod::lemma_add_mod_noop(u as int, q, m);
        assert((u as int + q) % m == (a + q) % m);
    }
    r
}

} // verus!
