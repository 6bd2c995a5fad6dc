//! Saturating fixed-point arithmetic on `i64` with 20 fractional bits.
//!
//! A raw value `x` stands for the real number `x / FX_ONE`.  Every operation
//! clips its result to `[-FX_SAT, FX_SAT]`, so the operations are total: no
//! input can overflow, and every value the engine computes stays finite and
//! bounded.  Products and quotients round their magnitude down (toward zero).

use vstd::prelude::*;

verus! {

/// The fixed-point representation of 1.0: 2^20.
pub const FX_ONE: i64 = 1048576;

/// Saturation bound of the arithmetic: 2^42 raw, i.e. 2^22 in real units.
pub const FX_SAT: i64 = 4398046511104;

/// Clip a mathematical integer to the saturation range.
pub open spec fn fx_clip(x: int) -> int {
    if x > FX_SAT {
        FX_SAT as int
    } else if x < -(FX_SAT as int) {
        -(FX_SAT as int)
    } else {
        x
    }
}

/// Quotient rounded toward zero (for `d > 0`).
pub open spec fn fx_quot(p: int, d: int) -> int {
    if p >= 0 {
        p / d
    } else {
        -((-p) / d)
    }
}

/// Absolute value.
pub open spec fn fx_abs_spec(a: int) -> int {
    if a >= 0 {
        a
    } else {
        -a
    }
}

/// Saturating sum.
pub open spec fn fx_add_spec(a: int, b: int) -> int {
    fx_clip(a + b)
}

/// Saturating difference.
pub open spec fn fx_sub_spec(a: int, b: int) -> int {
    fx_clip(a - b)
}

/// Saturating fixed-point product: `a * b / FX_ONE`, rounded toward zero.
pub open spec fn fx_mul_spec(a: int, b: int) -> int {
    fx_clip(fx_quot(a * b, FX_ONE as int))
}

/// Saturating fixed-point quotient: `a * FX_ONE / b`, rounded toward zero
/// (for `b > 0`).
pub open spec fn fx_div_spec(a: int, b: int) -> int {
    fx_clip(fx_quot(a * (FX_ONE as int), b))
}

/// Integer floor of a fixed-point value (rounds toward minus infinity).
pub open spec fn fx_floor_spec(a: int) -> int {
    if a >= 0 {
        a / (FX_ONE as int)
    } else {
        -((-a + FX_ONE - 1) / (FX_ONE as int))
    }
}

/// Clamp to an interval.
pub open spec fn fx_clamp_spec(x: int, lo: int, hi: int) -> int {
    if x < lo {
        lo
    } else if x > hi {
        hi
    } else {
        x
    }
}

/// A product of values within known nonnegative bounds stays within the
/// corresponding quotient bound, and stays nonnegative.
pub proof fn lemma_fx_mul_nonneg_upper(a: int, b: int, au: int, bu: int)
    requires
        0 <= a,
        a <= au,
        0 <= b,
        b <= bu,
    ensures
        0 <= fx_mul_spec(a, b),
        fx_mul_spec(a, b) <= fx_quot(au * bu, FX_ONE as int),
{
    assert(0 <= a * b && a * b <= au * bu) by (nonlinear_arith)
        requires
            0 <= a,
            a <= au,
            0 <= b,
            b <= bu,
    ;
    vstd::arithmetic::div_mod::lemma_div_is_ordered(a * b, au * bu, FX_ONE as int);
    vstd::arithmetic::div_mod::lemma_div_pos_is_pos(a * b, FX_ONE as int);
}

/// A product of values bounded below by a pair whose product reaches one
/// stays at least one.
pub proof fn lemma_fx_mul_pos(a: int, b: int, al: int, bl: int)
    requires
        0 < al <= a,
        0 < bl <= b,
        al * bl >= FX_ONE,
    ensures
        fx_mul_spec(a, b) >= 1,
{
    assert(a * b >= al * bl) by (nonlinear_arith)
        requires
            0 < al <= a,
            0 < bl <= b,
    ;
    vstd::arithmetic::div_mod::lemma_div_is_ordered(al * bl, a * b, FX_ONE as int);
    vstd::arithmetic::div_mod::lemma_div_is_ordered(FX_ONE as int, al * bl, FX_ONE as int);
}

/// A product of a nonpositive and a nonnegative value is nonpositive.
pub proof fn lemma_fx_mul_nonpos(a: int, b: int)
    requires
        a <= 0,
        0 <= b,
    ensures
        fx_mul_spec(a, b) <= 0,
{
    let p = a * b;
    assert(p <= 0) by (nonlinear_arith)
        requires
            p == a * b,
            a <= 0,
            0 <= b,
    ;
    if p < 0 {
        vstd::arithmetic::div_mod::lemma_div_pos_is_pos(-p, FX_ONE as int);
    }
}

/// The integer floor of a fixed-point value brackets it:
/// `FX_ONE * floor(a) <= a < FX_ONE * (floor(a) + 1)`.
pub proof fn lemma_fx_floor_bounds(a: int)
    ensures
        FX_ONE * fx_floor_spec(a) <= a,
        a < FX_ONE * (fx_floor_spec(a) + 1),
{
    let d = FX_ONE as int;
    if a >= 0 {
        vstd::arithmetic::div_mod::lemma_fundamental_div_mod(a, d);
        vstd::arithmetic::div_mod::lemma_mod_bound(a, d);
    } else {
        let b = -a;
        vstd::arithmetic::div_mod::lemma_fundamental_div_mod(b + d - 1, d);
        vstd::arithmetic::div_mod::lemma_mod_bound(b + d - 1, d);
    }
}

/// Magnitude of an `i64`, widened so that `i64::MIN` is representable.
fn fx_mag(a: i64) -> (r: u128)
    ensures
        r == fx_abs_spec(a as int),
{
    if a >= 0 {
        a as u128
    } else {
        (-(a as i128)) as u128
    }
}

/// Saturating sum.
pub fn fx_add(a: i64, b: i64) -> (r: i64)
    ensures
        r == fx_add_spec(a as int, b as int),
{
    let s: i128 = a as i128 + b as i128;
    if s > FX_SAT as i128 {
        FX_SAT
    } else if s < -(FX_SAT as i128) {
        -FX_SAT
    } else {
        s as i64
    }
}

/// Saturating difference.
pub fn fx_sub(a: i64, b: i64) -> (r: i64)
    ensures
        r == fx_sub_spec(a as int, b as int),
{
    let s: i128 = a as i128 - b as i128;
    if s > FX_SAT as i128 {
        FX_SAT
    } else if s < -(FX_SAT as i128) {
        -FX_SAT
    } else {
        s as i64
    }
}

/// Saturating fixed-point product.
pub fn fx_mul(a: i64, b: i64) -> (r: i64)
    ensures
        r == fx_mul_spec(a as int, b as int),
        a == 0 || b == 0 ==> r == 0,
        b == FX_ONE ==> r == fx_clip(a as int),
        a == FX_ONE ==> r == fx_clip(b as int),
        a >= 0 && b >= 0 ==> r >= 0,
        (a <= 0 && b >= 0) || (a >= 0 && b <= 0) ==> r <= 0,
{
    let neg = (a < 0) != (b < 0);
    let ma = fx_mag(a);
    let mb = fx_mag(b);
    proof {
        assert(ma * mb <= 0x8000000000000000u128 * 0x8000000000000000u128) by (nonlinear_arith)
            requires
                ma <= 0x8000000000000000u128,
                mb <= 0x8000000000000000u128,
        ;
        assert(a as int * b as int == if neg {
            -((ma * mb) as int)
        } else {
            (ma * mb) as int
        }) by (nonlinear_arith)
            requires
                ma == fx_abs_spec(a as int),
                mb == fx_abs_spec(b as int),
                neg == ((a < 0) != (b < 0)),
        ;
    }
    let q: u128 = (ma * mb) / (FX_ONE as u128);
    let qc: i64 = if q > FX_SAT as u128 {
        FX_SAT
    } else {
        q as i64
    };
    let r: i64 = if neg {
        -qc
    } else {
        qc
    };
    proof {
        if b == FX_ONE {
            vstd::arithmetic::div_mod::lemma_div_multiples_vanish(ma as int, FX_ONE as int);
            assert((FX_ONE as int) * (ma as int) == (ma as int) * (FX_ONE as int));
        }
        if a == FX_ONE {
            vstd::arithmetic::div_mod::lemma_div_multiples_vanish(mb as int, FX_ONE as int);
            assert((FX_ONE as int) * (mb as int) == (mb as int) * (FX_ONE as int));
            assert(ma * mb == mb * ma);
        }
        if a == 0 || b == 0 {
            assert(ma == 0 || mb == 0);
            assert(ma * mb == 0) by (nonlinear_arith)
                requires
                    ma == 0 || mb == 0,
            ;
            assert(a as int * b as int == 0) by (nonlinear_arith)
                requires
                    a == 0 || b == 0,
            ;
        }
    }
    r
}

/// Saturating fixed-point quotient; the divisor must be positive.
pub fn fx_div(a: i64, b: i64) -> (r: i64)
    requires
        b > 0,
    ensures
        r == fx_div_spec(a as int, b as int),
        a >= 0 ==> r >= 0,
        a <= 0 ==> r <= 0,
{
    let ma = fx_mag(a);
    proof {
        assert(a as int * (FX_ONE as int) == if a < 0 {
            -((ma * (FX_ONE as u128)) as int)
        } else {
            (ma * (FX_ONE as u128)) as int
        }) by (nonlinear_arith)
            requires
                ma == fx_abs_spec(a as int),
                ma <= 0x8000000000000000u128,
        ;
    }
    let q: u128 = (ma * (FX_ONE as u128)) / (b as u128);
    let qc: i64 = if q > FX_SAT as u128 {
        FX_SAT
    } else {
        q as i64
    };
    if a < 0 {
        -qc
    } else {
        qc
    }
}

/// Integer floor of a fixed-point value.
pub fn fx_floor(a: i64) -> (r: i64)
    ensures
        r == fx_floor_spec(a as int),
{
    if a >= 0 {
        ((a as u64) / (FX_ONE as u64)) as i64
    } else {
        let n: u128 = (-(a as i128)) as u128;
        let c: u128 = (n + (FX_ONE - 1) as u128) / (FX_ONE as u128);
        -(c as i64)
    }
}

/// Smaller of two values.
pub fn fx_min(a: i64, b: i64) -> (r: i64)
    ensures
        r == if a as int <= b as int {
            a as int
        } else {
            b as int
        },
{
    if a <= b {
        a
    } else {
        b
    }
}

/// Clamp to an interval.
pub fn fx_clamp(x: i64, lo: i64, hi: i64) -> (r: i64)
    requires
        lo <= hi,
    ensures
        r == fx_clamp_spec(x as int, lo as int, hi as int),
{
    if x < lo {
        lo
    } else if x > hi {
        hi
    } else {
        x
    }
}

} // verus!

