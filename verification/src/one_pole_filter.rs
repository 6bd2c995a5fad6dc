//! A 4-wide stateful one-pole lowpass filter.
//!
//! The tick advances the internal state by the coefficient-scaled difference
//! twice, returning the midpoint: a topology-preserving approximation of the
//! analogue one-pole.  The coefficient is derived from a cutoff frequency by
//! a tangent-warped formula.

use vstd::prelude::*;

verus! {

use crate::approx::{tan_fx, tan_spec};
use crate::fixed::{fx_add_spec, fx_div, fx_div_spec, fx_mul, fx_mul_spec, FX_ONE};
use crate::poly_utils::{fx4_add_spec, fx4_mul_spec, fx4_splat_spec, fx4_sub_spec, Fix4};

/// `pi` in fixed point.
pub const FX_PI: i64 = 3294199;

/// A 4-wide one-pole lowpass filter.
#[derive(Clone, Copy, PartialEq, Eq, Structural, Debug)]
pub struct OnePoleFilter {
    /// The output of the most recent tick.
    pub current_state: Fix4,
    /// The internal integrator state, half a step ahead of the output.
    pub filter_state: Fix4,
}

/// The filter state after one tick: the integrator advances twice by
/// `coefficient * (input - state)`, and the output is the midpoint.
pub open spec fn tick_state_spec(st: OnePoleFilter, audio_in: Fix4, coefficient: Fix4) -> OnePoleFilter {
    let delta = fx4_mul_spec(coefficient, fx4_sub_spec(audio_in, st.filter_state));
    let mid = fx4_add_spec(st.filter_state, delta);
    OnePoleFilter { current_state: mid, filter_state: fx4_add_spec(mid, delta) }
}

/// The tangent-warped coefficient for one lane: `tan(phi / (phi + 1))` where
/// `phi = cutoff * pi / sample_rate`.
#[verifier::opaque]
pub open spec fn coeff_lane_spec(cutoff: int, sample_rate: int) -> int {
    let phi = fx_div_spec(fx_mul_spec(cutoff, FX_PI as int), sample_rate);
    tan_spec(fx_div_spec(phi, phi + FX_ONE))
}

impl OnePoleFilter {
    /// A filter at rest.
    pub fn new() -> (r: OnePoleFilter)
        ensures
            r.current_state == fx4_splat_spec(0),
            r.filter_state == fx4_splat_spec(0),
    {
        OnePoleFilter { current_state: Fix4::zero(), filter_state: Fix4::zero() }
    }

    /// Return the filter to rest.
    pub fn reset(&mut self)
        ensures
            final(self).current_state == fx4_splat_spec(0),
            final(self).filter_state == fx4_splat_spec(0),
    {
        self.current_state = Fix4::zero();
        self.filter_state = Fix4::zero();
    }

    /// Advance the filter by one sample and return the filtered value.
    pub fn tick(&mut self, audio_in: Fix4, coefficient: Fix4) -> (r: Fix4)
        ensures
            *final(self) == tick_state_spec(*old(self), audio_in, coefficient),
            r == tick_state_spec(*old(self), audio_in, coefficient).current_state,
    {
        let delta = coefficient.mul4(audio_in.sub4(self.filter_state));
        self.filter_state = self.filter_state.add4(delta);
        self.current_state = self.filter_state;
        self.filter_state = self.filter_state.add4(delta);
        self.current_state
    }

    /// Derive the lowpass coefficient from a cutoff frequency and the sample
    /// rate (both in fixed point; the cutoff must lie in the audible band and
    /// the sample rate must be at least the base rate of 44100 Hz).
    pub fn compute_coeff(cutoff_frequency: Fix4, sample_rate: Fix4) -> (r: Fix4)
        requires
            0 < cutoff_frequency.l0 <= 20971520000,
            0 < cutoff_frequency.l1 <= 20971520000,
            0 < cutoff_frequency.l2 <= 20971520000,
            0 < cutoff_frequency.l3 <= 20971520000,
            sample_rate.l0 >= 46242201600,
            sample_rate.l1 >= 46242201600,
            sample_rate.l2 >= 46242201600,
            sample_rate.l3 >= 46242201600,
        ensures
            r.l0 == coeff_lane_spec(cutoff_frequency.l0 as int, sample_rate.l0 as int),
            r.l1 == coeff_lane_spec(cutoff_frequency.l1 as int, sample_rate.l1 as int),
            r.l2 == coeff_lane_spec(cutoff_frequency.l2 as int, sample_rate.l2 as int),
            r.l3 == coeff_lane_spec(cutoff_frequency.l3 as int, sample_rate.l3 as int),
            0 <= r.l0 < FX_ONE,
            0 <= r.l1 < FX_ONE,
            0 <= r.l2 < FX_ONE,
            0 <= r.l3 < FX_ONE,
    {
        Fix4 {
            l0: Self::coeff_lane(cutoff_frequency.l0, sample_rate.l0),
            l1: Self::coeff_lane(cutoff_frequency.l1, sample_rate.l1),
            l2: Self::coeff_lane(cutoff_frequency.l2, sample_rate.l2),
            l3: Self::coeff_lane(cutoff_frequency.l3, sample_rate.l3),
        }
    }

    /// One lane of the coefficient computation.
    fn coeff_lane(cutoff: i64, sample_rate: i64) -> (r: i64)
        requires
            0 < cutoff <= 20971520000,
            sample_rate >= 46242201600,
        ensures
            r == coeff_lane_spec(cutoff as int, sample_rate as int),
            0 <= r < FX_ONE,
    {
        proof {
            reveal(coeff_lane_spec);
        }
        let scaled = fx_mul(cutoff, FX_PI);
        proof {
            crate::fixed::lemma_fx_mul_nonneg_upper(
                cutoff as int,
                FX_PI as int,
                20971520000,
                FX_PI as int,
            );
        }
        let phi = fx_div(scaled, sample_rate);
        proof {
            lemma_phase_bounded(scaled as int, sample_rate as int);
        }
        let a = fx_div(phi, phi + FX_ONE);
        proof {
            lemma_ratio_below_one(phi as int);
        }
        tan_fx(a)
    }
}

/// The phase `scaled / sample_rate` of a band-limited cutoff at a supported
/// sample rate stays below one and a half in fixed point.
proof fn lemma_phase_bounded(scaled: int, sample_rate: int)
    requires
        0 <= scaled <= 65883980000,
        sample_rate >= 46242201600,
    ensures
        0 <= fx_div_spec(scaled, sample_rate) <= 1572864,
{
    let num = scaled * (FX_ONE as int);
    vstd::arithmetic::div_mod::lemma_div_pos_is_pos(num, sample_rate);
    vstd::arithmetic::div_mod::lemma_div_is_ordered(
        num,
        65883980000 * (FX_ONE as int),
        sample_rate,
    );
    vstd::arithmetic::div_mod::lemma_div_is_ordered_by_denominator(
        65883980000 * (FX_ONE as int),
        46242201600,
        sample_rate,
    );
}

/// For `phi` in `[0, 1.5]`, the warped ratio `phi / (phi + 1)` stays within
/// the domain of the tangent series.
proof fn lemma_ratio_below_one(phi: int)
    requires
        0 <= phi <= 1572864,
    ensures
        0 <= fx_div_spec(phi, phi + FX_ONE),
        fx_div_spec(phi, phi + FX_ONE) <= 629146,
{
    let num = phi * (FX_ONE as int);
    let den = phi + FX_ONE;
    assert(num >= 0) by (nonlinear_arith)
        requires
            phi >= 0,
            num == phi * FX_ONE,
    ;
    vstd::arithmetic::div_mod::lemma_div_pos_is_pos(num, den);
    assert(num <= 629146 * den) by (nonlinear_arith)
        requires
            0 <= phi <= 1572864,
            num == phi * FX_ONE,
            den == phi + FX_ONE,
    ;
    vstd::arithmetic::div_mod::lemma_div_is_ordered(num, 629146 * den, den);
    vstd::arithmetic::div_mod::lemma_div_multiples_vanish(629146, den);
    assert(den * 629146 == 629146 * den);
}

} // verus!
