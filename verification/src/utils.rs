//! Decibel conversion and the equal-power crossfade curves.

use vstd::prelude::*;

verus! {

use crate::approx::{cos2pi, cos2pi_spec, exp2_fx, exp2_spec};
use crate::fixed::{fx_mul, fx_mul_spec, fx_quot, lemma_fx_mul_nonneg_upper, lemma_fx_mul_nonpos, FX_ONE};

/// `log2(10) / 20` in fixed point: the exponent scale of the decibel.
pub const FX_DB_EXP: i64 = 174165;

/// `10^(dbs/20)` as a fixed-point amplitude.
#[verifier::opaque]
pub open spec fn db_to_amplitude_spec(dbs: int) -> int {
    exp2_spec(fx_mul_spec(dbs, FX_DB_EXP as int))
}

/// The equal-power fade of a normalized control: `cos(normal * pi/2)`.
#[verifier::opaque]
pub open spec fn equal_power_fade_spec(normal: int) -> int {
    cos2pi_spec(fx_quot(normal, 4))
}

/// The complementary equal-power fade: `cos((normal - 1) * pi/2)`.
#[verifier::opaque]
pub open spec fn equal_power_fade_inverse_spec(normal: int) -> int {
    cos2pi_spec(fx_quot(FX_ONE - normal, 4))
}

/// Convert decibels to amplitude: `10^(dbs/20)`.
pub fn db_to_amplitude(dbs: i64) -> (r: i64)
    requires
        dbs <= 12582912,
    ensures
        r == db_to_amplitude_spec(dbs as int),
        0 <= r,
        dbs <= 0 ==> r <= FX_ONE,
        dbs == 0 ==> r == FX_ONE,
{
    proof {
        reveal(db_to_amplitude_spec);
    }
    let x = fx_mul(dbs, FX_DB_EXP);
    proof {
        if dbs >= 0 {
            lemma_fx_mul_nonneg_upper(dbs as int, FX_DB_EXP as int, 12582912, FX_DB_EXP as int);
        } else {
            lemma_fx_mul_nonpos(dbs as int, FX_DB_EXP as int);
        }
    }
    exp2_fx(x)
}

/// The equal-power fade: one at `normal == 0`, zero at `normal == FX_ONE`.
pub fn equal_power_fade(normal: i64) -> (r: i64)
    requires
        0 <= normal <= FX_ONE,
    ensures
        r == equal_power_fade_spec(normal as int),
        -FX_ONE <= r <= FX_ONE,
        normal == 0 ==> r == FX_ONE,
        normal == FX_ONE ==> r == 0,
{
    proof {
        reveal(equal_power_fade_spec);
    }
    let t = ((normal as u64) / 4) as i64;
    cos2pi(t)
}

/// The complementary equal-power fade: zero at `normal == 0`, one at
/// `normal == FX_ONE`.
pub fn equal_power_fade_inverse(normal: i64) -> (r: i64)
    requires
        0 <= normal <= FX_ONE,
    ensures
        r == equal_power_fade_inverse_spec(normal as int),
        -FX_ONE <= r <= FX_ONE,
        normal == 0 ==> r == 0,
        normal == FX_ONE ==> r == FX_ONE,
{
    proof {
        reveal(equal_power_fade_inverse_spec);
    }
    let t = (((FX_ONE - normal) as u64) / 4) as i64;
    cos2pi(t)
}

} // verus!
