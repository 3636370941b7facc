//! Fixed-point scalars and vectors.
//!
//! Every scalar quantity in the engine — positions, velocities, color
//! channels, life spans — is an `i64` counting micro-units: [`SCALE`]
//! micro-units make one whole unit. Multiplication and division of such
//! quantities round toward zero, the rounding rule [`tdiv`] captures.

use vstd::math::abs;
use vstd::prelude::*;

verus! {

/// Micro-units per whole unit of any fixed-point quantity.
pub const SCALE: i64 = 1_000_000;

/// Largest magnitude the engine accepts for a configured parameter
/// (a radius, an amplitude, a bound extent, a noise strength):
/// one million whole units. Keeping parameters under this limit is what
/// makes every intermediate product below fit in an `i64`.
pub const PARAM_LIMIT: i64 = 1_000_000_000_000;

/// Largest elapsed-time value (in micro-units of a second) the trajectory
/// functions accept.
pub const TIME_LIMIT: i64 = 1_000_000_000;

/// Division rounding toward zero, the rule `/` follows on machine integers.
/// `int` division rounds toward negative infinity, so a negative numerator
/// is divided by magnitude and the quotient negated.
pub open spec fn tdiv(a: int, b: int) -> int {
    if a >= 0 {
        a / b
    } else {
        -((-a) / b)
    }
}

/// The fixed-point product `a * b / c`, rounded toward zero.
pub open spec fn tmuldiv(a: int, b: int, c: int) -> int {
    tdiv(a * b, c)
}

/// A two-dimensional fixed-point vector: a position, a velocity, a force.
#[derive(Clone, Copy, PartialEq, Eq, Structural, Debug)]
pub struct Vec2 {
    pub x: i64,
    pub y: i64,
}

/// A closed fixed-point interval `[lo, hi]`, as configured for a color
/// channel range.
#[derive(Clone, Copy, PartialEq, Eq, Structural, Debug)]
pub struct Interval {
    pub lo: i64,
    pub hi: i64,
}

/// `a * b / c` on fixed-point scalars, rounded toward zero.
///
/// The product is taken at full width, so it never overflows; only the
/// quotient must fit in an `i64`.
pub fn mul_div(a: i64, b: i64, c: i64) -> (r: i64)
    requires
        c >= 1,
        abs(a as int * b as int) as int / (c as int) <= i64::MAX as int,
    ensures
        r == tmuldiv(a as int, b as int, c as int),
{
    let neg: bool = (a < 0) != (b < 0);
    let ua: u128 = if a < 0 {
        (-(a as i128)) as u128
    } else {
        a as u128
    };
    let ub: u128 = if b < 0 {
        (-(b as i128)) as u128
    } else {
        b as u128
    };
    proof {
        assert(ua == abs(a as int));
        assert(ub == abs(b as int));
        assert(ua * ub == abs(a as int * b as int)) by (nonlinear_arith)
            requires
                ua == abs(a as int),
                ub == abs(b as int),
        ;
        assert(ua <= 0x8000_0000_0000_0000 && ub <= 0x8000_0000_0000_0000);
        assert(ua * ub <= u128::MAX) by (nonlinear_arith)
            requires
                ua <= 0x8000_0000_0000_0000,
                ub <= 0x8000_0000_0000_0000,
        ;
    }
    let p: u128 = ua * ub;
    let q: u128 = p / (c as u128);
    proof {
        assert(q == abs(a as int * b as int) as int / (c as int));
        assert(q <= i64::MAX);
        let ab = a as int * b as int;
        if ab >= 0 {
            assert(abs(ab) == ab);
            assert(tmuldiv(a as int, b as int, c as int) == q);
            if neg {
                assert(ab == 0) by (nonlinear_arith)
                    requires
                        (a < 0) != (b < 0),
                        ab == a as int * b as int,
                        ab >= 0,
                ;
            }
        } else {
            assert(abs(ab) == -ab);
            assert(tmuldiv(a as int, b as int, c as int) == -(q as int));
            assert(neg) by (nonlinear_arith)
                requires
                    neg == ((a < 0) != (b < 0)),
                    ab == a as int * b as int,
                    ab < 0,
            ;
        }
    }
    if neg {
        -(q as i64)
    } else {
        q as i64
    }
}

/// The magnitude of a truncated quotient is the quotient of the magnitudes,
/// so a bound on the product bounds the result.
pub proof fn lemma_tmuldiv_bound(a: int, b: int, c: int, m: int)
    requires
        c >= 1,
        abs(a * b) <= m,
        0 <= m,
    ensures
        -(m / c) <= tmuldiv(a, b, c) <= m / c,
{
    let ab = a * b;
    if ab >= 0 {
        vstd::arithmetic::div_mod::lemma_div_is_ordered(ab, m, c);
        vstd::arithmetic::div_mod::lemma_div_pos_is_pos(ab, c);
        vstd::arithmetic::div_mod::lemma_div_pos_is_pos(m, c);
    } else {
        vstd::arithmetic::div_mod::lemma_div_is_ordered(-ab, m, c);
        vstd::arithmetic::div_mod::lemma_div_pos_is_pos(-ab, c);
        vstd::arithmetic::div_mod::lemma_div_pos_is_pos(m, c);
    }
}

/// Bounds on both factors bound the truncated quotient: with `|a| <= ba`
/// and `|b| <= bb`, the product stays within `ba * bb` and the quotient
/// within `ba * bb / c` of either sign.
pub proof fn lemma_product_quotient_bound(a: int, b: int, ba: int, bb: int, c: int)
    requires
        -ba <= a <= ba,
        -bb <= b <= bb,
        0 <= ba,
        0 <= bb,
        1 <= c,
    ensures
        abs(a * b) <= ba * bb,
        abs(a * b) as int / c <= ba * bb / c,
        -(ba * bb / c) <= tmuldiv(a, b, c) <= ba * bb / c,
{
    assert(abs(a * b) <= ba * bb) by (nonlinear_arith)
        requires
            -ba <= a <= ba,
            -bb <= b <= bb,
            0 <= ba,
            0 <= bb,
    ;
    vstd::arithmetic::div_mod::lemma_div_is_ordered(abs(a * b) as int, ba * bb, c);
    lemma_tmuldiv_bound(a, b, c, ba * bb);
}

/// Rounds `x` down (toward negative infinity) to a multiple of [`SCALE`]:
/// the fixed-point analogue of flooring to a whole number.
pub fn floor_unit(x: i64) -> (r: i64)
    requires
        x > i64::MIN + SCALE,
    ensures
        r as int % (SCALE as int) == 0,
        r <= x < r + SCALE,
{
    if x >= 0 {
        let m: i64 = ((x as u64) % (SCALE as u64)) as i64;
        proof {
            assert(m == (x as int) % (SCALE as int));
            vstd::arithmetic::div_mod::lemma_fundamental_div_mod(x as int, SCALE as int);
            assert(((x - m) as int) % (SCALE as int) == 0) by {
                vstd::arithmetic::div_mod::lemma_mod_multiples_basic(
                    (x as int) / (SCALE as int),
                    SCALE as int,
                );
                assert(x - m == ((x as int) / (SCALE as int)) * (SCALE as int));
            }
        }
        x - m
    } else {
        let mag: u64 = (-(x as i128)) as u64;
        let rm: u64 = mag % (SCALE as u64);
        if rm == 0 {
            proof {
                assert(x as int == -(mag as int));
                vstd::arithmetic::div_mod::lemma_fundamental_div_mod(mag as int, SCALE as int);
                let k = (mag as int) / (SCALE as int);
                assert(x as int == (-k) * (SCALE as int)) by (nonlinear_arith)
                    requires
                        x as int == -(mag as int),
                        mag as int == (SCALE as int) * k,
                ;
                vstd::arithmetic::div_mod::lemma_mod_multiples_basic(-k, SCALE as int);
            }
            x
        } else {
            let r = x - ((SCALE as u64 - rm) as i64);
            proof {
                assert(x as int == -(mag as int));
                vstd::arithmetic::div_mod::lemma_fundamental_div_mod(mag as int, SCALE as int);
                let k = (mag as int) / (SCALE as int);
                assert(r as int == (-k - 1) * (SCALE as int)) by (nonlinear_arith)
                    requires
                        r as int == x - (SCALE - rm),
                        x as int == -(mag as int),
                        mag as int == (SCALE as int) * k + rm,
                ;
                vstd::arithmetic::div_mod::lemma_mod_multiples_basic(-k - 1, SCALE as int);
            }
            r
        }
    }
}

} // verus!
