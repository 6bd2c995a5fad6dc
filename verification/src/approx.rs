//! Fixed-point polynomial approximations of the transcendental functions the
//! engine needs: cosine and sine on whole turns, the tangent on the small
//! arguments the filter-coefficient path produces, and the base-two
//! exponential.
//!
//! Each function computes a truncated power series by Horner's rule in the
//! saturating fixed-point arithmetic, and its contract states that result
//! exactly; the quarter-turn points of the cosine are pinned to exact fixed
//! point values so that an equal-power crossfade reaches `1.0` and `0.0`
//! without residue.

use vstd::prelude::*;

verus! {

use crate::fixed::{
    fx_add, fx_floor, fx_floor_spec, fx_mul, fx_mul_spec, fx_sub, lemma_fx_floor_bounds,
    lemma_fx_mul_nonneg_upper, FX_ONE,
};

/// A quarter turn: `FX_ONE / 4`.
pub const FX_QUARTER: i64 = 262144;

/// A half turn: `FX_ONE / 2`.
pub const FX_HALF_TURN: i64 = 524288;

/// Three quarter turns.
pub const FX_THREE_QUARTER: i64 = 786432;

/// `(2*pi)^2 / 2` in fixed point.
pub const COS_A2: i64 = 20698061;

/// `(2*pi)^4 / 24` in fixed point.
pub const COS_A4: i64 = 68093890;

/// `(2*pi)^6 / 720` in fixed point.
pub const COS_A6: i64 = 89607968;

/// `(2*pi)^8 / 40320` in fixed point.
pub const COS_A8: i64 = 63171085;

/// `1/3`, `2/15`, `17/315`, `62/2835` in fixed point: the series of the
/// tangent.
pub const TAN_T3: i64 = 349525;

pub const TAN_T5: i64 = 139810;

pub const TAN_T7: i64 = 56590;

pub const TAN_T9: i64 = 22932;

/// `ln(2)^k / k!` for `k = 1..6` in fixed point: the series of `2^x`.
pub const EXP_C1: i64 = 726817;

pub const EXP_C2: i64 = 251896;

pub const EXP_C3: i64 = 58200;

pub const EXP_C4: i64 = 10085;

pub const EXP_C5: i64 = 1398;

pub const EXP_C6: i64 = 162;

/// `cos(2*pi*u)` for `u` in `[0, 1/4]` turns: the truncated cosine series
/// `1 - u^2*(A2 - u^2*(A4 - u^2*(A6 - u^2*A8)))`, with the quarter turn
/// pinned to exactly zero.
#[verifier::opaque]
pub open spec fn cos_quarter_spec(u: int) -> int {
    if u == FX_QUARTER {
        0
    } else {
        let u2 = fx_mul_spec(u, u);
        let h3 = COS_A6 - fx_mul_spec(u2, COS_A8 as int);
        let h2 = COS_A4 - fx_mul_spec(u2, h3);
        let h1 = COS_A2 - fx_mul_spec(u2, h2);
        FX_ONE - fx_mul_spec(u2, h1)
    }
}

/// `cos(2*pi*t)` for `t` in `[0, 1)` turns, folded onto the first quarter.
#[verifier::opaque]
pub open spec fn cos2pi_spec(t: int) -> int {
    if t < FX_QUARTER {
        cos_quarter_spec(t)
    } else if t < FX_HALF_TURN {
        -cos_quarter_spec(FX_HALF_TURN - t)
    } else if t < FX_THREE_QUARTER {
        -cos_quarter_spec(t - FX_HALF_TURN)
    } else {
        cos_quarter_spec(FX_ONE - t)
    }
}

/// `sin(2*pi*t)` for `t` in `[0, 1)` turns: the cosine a quarter turn later.
#[verifier::opaque]
pub open spec fn sin2pi_spec(t: int) -> int {
    if t >= FX_QUARTER {
        cos2pi_spec(t - FX_QUARTER)
    } else {
        cos2pi_spec(t + FX_THREE_QUARTER)
    }
}

/// `tan(x)` for small nonnegative `x`: the truncated series
/// `x * (1 + x^2*(T3 + x^2*(T5 + x^2*(T7 + x^2*T9))))`.
#[verifier::opaque]
pub open spec fn tan_spec(x: int) -> int {
    let x2 = fx_mul_spec(x, x);
    let h4 = TAN_T7 + fx_mul_spec(x2, TAN_T9 as int);
    let h3 = TAN_T5 + fx_mul_spec(x2, h4);
    let h2 = TAN_T3 + fx_mul_spec(x2, h3);
    fx_mul_spec(x, FX_ONE + fx_mul_spec(x2, h2))
}

/// `2^f` for `f` in `[0, 1)`: the truncated series
/// `1 + f*(C1 + f*(C2 + f*(C3 + f*(C4 + f*(C5 + f*C6)))))`.
pub open spec fn exp2_frac_spec(f: int) -> int {
    let h5 = EXP_C5 + fx_mul_spec(f, EXP_C6 as int);
    let h4 = EXP_C4 + fx_mul_spec(f, h5);
    let h3 = EXP_C3 + fx_mul_spec(f, h4);
    let h2 = EXP_C2 + fx_mul_spec(f, h3);
    let h1 = EXP_C1 + fx_mul_spec(f, h2);
    FX_ONE + fx_mul_spec(f, h1)
}

/// `2^x`: the fractional power series scaled by a power of two from the
/// integer part of `x`.
#[verifier::opaque]
pub open spec fn exp2_spec(x: int) -> int {
    let n = fx_floor_spec(x);
    let f = x - n * FX_ONE;
    let p = exp2_frac_spec(f);
    if n >= 0 {
        crate::fixed::fx_clip(p * vstd::arithmetic::power2::pow2(n as nat))
    } else {
        p / vstd::arithmetic::power2::pow2((-n) as nat) as int
    }
}

/// Cosine of the first quarter turn.
fn cos_quarter(u: i64) -> (r: i64)
    requires
        0 <= u <= FX_QUARTER,
    ensures
        r == cos_quarter_spec(u as int),
        -FX_ONE <= r <= FX_ONE,
        u == 0 ==> r == FX_ONE,
        u == FX_QUARTER ==> r == 0,
{
    proof {
        reveal(cos_quarter_spec);
    }
    if u == FX_QUARTER {
        0
    } else {
        let u2 = fx_mul(u, u);
        proof {
            lemma_fx_mul_nonneg_upper(u as int, u as int, FX_QUARTER as int, FX_QUARTER as int);
        }
        let m3 = fx_mul(u2, COS_A8);
        proof {
            lemma_fx_mul_nonneg_upper(u2 as int, COS_A8 as int, 65536, COS_A8 as int);
        }
        let h3 = fx_sub(COS_A6, m3);
        let m2 = fx_mul(u2, h3);
        proof {
            lemma_fx_mul_nonneg_upper(u2 as int, h3 as int, 65536, COS_A6 as int);
        }
        let h2 = fx_sub(COS_A4, m2);
        let m1 = fx_mul(u2, h2);
        proof {
            lemma_fx_mul_nonneg_upper(u2 as int, h2 as int, 65536, COS_A4 as int);
        }
        let h1 = fx_sub(COS_A2, m1);
        let m0 = fx_mul(u2, h1);
        proof {
            lemma_fx_mul_nonneg_upper(u2 as int, h1 as int, 65536, COS_A2 as int);
            if u == 0 {
                assert(u2 == 0);
                assert(m0 == 0);
            }
        }
        fx_sub(FX_ONE, m0)
    }
}

/// Cosine of a whole turn, `t` in `[0, 1)`.
pub fn cos2pi(t: i64) -> (r: i64)
    requires
        0 <= t < FX_ONE,
    ensures
        r == cos2pi_spec(t as int),
        -FX_ONE <= r <= FX_ONE,
        t == 0 ==> r == FX_ONE,
        t == FX_QUARTER ==> r == 0,
        t == FX_THREE_QUARTER ==> r == 0,
{
    proof {
        reveal(cos2pi_spec);
    }
    if t < FX_QUARTER {
        cos_quarter(t)
    } else if t < FX_HALF_TURN {
        -cos_quarter(FX_HALF_TURN - t)
    } else if t < FX_THREE_QUARTER {
        -cos_quarter(t - FX_HALF_TURN)
    } else {
        cos_quarter(FX_ONE - t)
    }
}

/// Sine of a whole turn, `t` in `[0, 1)`.
pub fn sin2pi(t: i64) -> (r: i64)
    requires
        0 <= t < FX_ONE,
    ensures
        r == sin2pi_spec(t as int),
        -FX_ONE <= r <= FX_ONE,
        t == 0 ==> r == 0,
{
    proof {
        reveal(sin2pi_spec);
    }
    if t >= FX_QUARTER {
        cos2pi(t - FX_QUARTER)
    } else {
        cos2pi(t + FX_THREE_QUARTER)
    }
}

/// Tangent of a small nonnegative argument (at most about `0.6`).
pub fn tan_fx(x: i64) -> (r: i64)
    requires
        0 <= x <= 629146,
    ensures
        r == tan_spec(x as int),
        0 <= r < FX_ONE,
{
    proof {
        reveal(tan_spec);
    }
    let x2 = fx_mul(x, x);
    proof {
        lemma_fx_mul_nonneg_upper(x as int, x as int, 629146, 629146);
    }
    let m4 = fx_mul(x2, TAN_T9);
    proof {
        lemma_fx_mul_nonneg_upper(x2 as int, TAN_T9 as int, 377487, TAN_T9 as int);
    }
    let h4 = fx_add(TAN_T7, m4);
    let m3 = fx_mul(x2, h4);
    proof {
        lemma_fx_mul_nonneg_upper(x2 as int, h4 as int, 377487, 64845);
    }
    let h3 = fx_add(TAN_T5, m3);
    let m2 = fx_mul(x2, h3);
    proof {
        lemma_fx_mul_nonneg_upper(x2 as int, h3 as int, 377487, 163156);
    }
    let h2 = fx_add(TAN_T3, m2);
    let m1 = fx_mul(x2, h2);
    proof {
        lemma_fx_mul_nonneg_upper(x2 as int, h2 as int, 377487, 408264);
    }
    let factor = fx_add(FX_ONE, m1);
    let r = fx_mul(x, factor);
    proof {
        lemma_fx_mul_nonneg_upper(x as int, factor as int, 629146, 1195563);
    }
    r
}

/// `2^x` for `x` at most two.
pub fn exp2_fx(x: i64) -> (r: i64)
    requires
        x <= 2 * FX_ONE,
    ensures
        r == exp2_spec(x as int),
        0 <= r <= 8388536,
        x <= 0 ==> r <= FX_ONE,
        x == 0 ==> r == FX_ONE,
{
    proof {
        reveal(exp2_spec);
    }
    let n = fx_floor(x);
    proof {
        lemma_fx_floor_bounds(x as int);
    }
    let f = x - n * FX_ONE;
    let m5 = fx_mul(f, EXP_C6);
    proof {
        lemma_fx_mul_nonneg_upper(f as int, EXP_C6 as int, FX_ONE as int, EXP_C6 as int);
    }
    let h5 = fx_add(EXP_C5, m5);
    let m4 = fx_mul(f, h5);
    proof {
        lemma_fx_mul_nonneg_upper(f as int, h5 as int, FX_ONE as int, 1560);
    }
    let h4 = fx_add(EXP_C4, m4);
    let m3 = fx_mul(f, h4);
    proof {
        lemma_fx_mul_nonneg_upper(f as int, h4 as int, FX_ONE as int, 11645);
    }
    let h3 = fx_add(EXP_C3, m3);
    let m2 = fx_mul(f, h3);
    proof {
        lemma_fx_mul_nonneg_upper(f as int, h3 as int, FX_ONE as int, 69845);
    }
    let h2 = fx_add(EXP_C2, m2);
    let m1 = fx_mul(f, h2);
    proof {
        lemma_fx_mul_nonneg_upper(f as int, h2 as int, FX_ONE as int, 321741);
    }
    let h1 = fx_add(EXP_C1, m1);
    let m0 = fx_mul(f, h1);
    proof {
        lemma_fx_mul_nonneg_upper(f as int, h1 as int, FX_ONE as int, 1048558);
    }
    let p = fx_add(FX_ONE, m0);
    proof {
        if x <= 0 && n >= 0 {
            assert(n == 0);
            assert(x == 0);
        }
        if x == 0 {
            assert(f == 0);
            assert(m0 == 0);
            assert(p == FX_ONE);
        }
    }
    if n >= 0 {
        proof {
            vstd::arithmetic::power2::lemma2_to64();
        }
        if n == 0 {
            proof {
                assert(vstd::arithmetic::power2::pow2(n as nat) == 1);
                assert((p as int) * 1 == p as int);
            }
            p
        } else if n == 1 {
            proof {
                assert(vstd::arithmetic::power2::pow2(n as nat) == 2);
                assert((p as int) * 2 == 2 * (p as int));
            }
            p * 2
        } else {
            proof {
                assert(n == 2);
                assert(vstd::arithmetic::power2::pow2(n as nat) == 4);
                assert((p as int) * 4 == 4 * (p as int));
            }
            p * 4
        }
    } else {
        let m = -n;
        proof {
            vstd::arithmetic::power2::lemma2_to64();
            vstd::arithmetic::power2::lemma2_to64_rest();
            let pm = vstd::arithmetic::power2::pow2(m as nat) as int;
            if m > 1 {
                vstd::arithmetic::power2::lemma_pow2_strictly_increases(1, m as nat);
            }
            vstd::arithmetic::div_mod::lemma_div_is_ordered_by_denominator(p as int, 2, pm);
            vstd::arithmetic::div_mod::lemma_div_pos_is_pos(p as int, pm);
        }
        if m >= 43 {
            proof {
                let pm = vstd::arithmetic::power2::pow2(m as nat) as int;
                if m > 43 {
                    vstd::arithmetic::power2::lemma_pow2_strictly_increases(43, m as nat);
                }
                vstd::arithmetic::div_mod::lemma_basic_div(p as int, pm);
            }
            0
        } else {
            proof {
                vstd::bits::lemma_u64_shr_is_div(p as u64, m as u64);
            }
            ((p as u64) >> (m as u64)) as i64
        }
    }
}

} // verus!

