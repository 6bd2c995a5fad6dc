//! The exact trajectory of the engine: an abstract state, the function one
//! frame computes on it, and the fold of that function over a block of
//! frames.  The processing contracts pin their results against these
//! functions, so the output samples and the final state are fixed by the old
//! state, the parameters and the inputs alone.

use vstd::prelude::*;

verus! {

use crate::fixed::{fx_add_spec, fx_clamp_spec, fx_div_spec, fx_mul_spec, fx_sub_spec, FX_ONE};
use crate::matrix::{sum_rows_spec, transpose_spec, Matrix, FX_HALF, FX_NEG_HALF, FX_THREE};
use crate::one_pole_filter::{coeff_lane_spec, tick_state_spec, OnePoleFilter};
use crate::params::ReverbParams;
use crate::poly_utils::{
    fx4_add_spec, fx4_clamp_spec, fx4_divs_spec, fx4_min_spec, fx4_mul_spec, fx4_reduce_spec,
    fx4_splat_spec, fx4_sub_spec, mul_add_fx_spec, swap_voices_spec, Fix4,
};
use crate::reverb::{
    allpass_base_spec, allpass_read_bank_spec, bank_view, container_decays_spec,
    feedback_delay_spec, feedback_read_bank_spec, guard_refresh_spec, BlockCtx, CurState, Reverb,
    FX_ALLPASS_FEEDBACK, FX_CHORUS_GUARD, FX_DELAY_SMOOTH, FX_FEED_FORWARD_SCALE, FX_INPUT_SCALE,
    FX_MAX_CHORUS_DRIFT, FX_MAX_SAMPLE_RATE, FX_MIN_DELAY, FX_SIXTEENTH_TURN,
};
use crate::stereo_memory::stereo_read_spec;
use crate::utils::{db_to_amplitude_spec, equal_power_fade_inverse_spec, equal_power_fade_spec};

/// The abstract state of the engine: every buffer as a sequence, every
/// index as an integer, and every register as its fixed-point value.
#[verifier::ext_equal]
pub struct EngineState {
    pub feedback: Seq<Seq<i64>>,
    pub allpass: Seq<Seq<i64>>,
    pub stereo_left: Seq<i64>,
    pub stereo_right: Seq<i64>,
    pub stereo_size: int,
    pub stereo_offset: int,
    pub decays0: Fix4,
    pub decays1: Fix4,
    pub decays2: Fix4,
    pub decays3: Fix4,
    pub pre_low_filter: OnePoleFilter,
    pub pre_high_filter: OnePoleFilter,
    pub low_shelf_filter0: OnePoleFilter,
    pub low_shelf_filter1: OnePoleFilter,
    pub low_shelf_filter2: OnePoleFilter,
    pub low_shelf_filter3: OnePoleFilter,
    pub high_shelf_filter0: OnePoleFilter,
    pub high_shelf_filter1: OnePoleFilter,
    pub high_shelf_filter2: OnePoleFilter,
    pub high_shelf_filter3: OnePoleFilter,
    pub pre_low_coeff: Fix4,
    pub pre_high_coeff: Fix4,
    pub low_shelf_coeff: Fix4,
    pub high_shelf_coeff: Fix4,
    pub low_shelf_amp: Fix4,
    pub high_shelf_amp: Fix4,
    pub chorus_phase: i64,
    pub chorus_amount: Fix4,
    pub sample_delay: Fix4,
    pub sample_delay_increment: Fix4,
    pub dry_amp: Fix4,
    pub wet_amp: Fix4,
    pub width_coeff: i64,
    pub write_index: int,
    pub max_feedback_size: int,
    pub allpass_size: int,
    pub allpass_offsets0: Fix4,
    pub allpass_offsets1: Fix4,
    pub allpass_offsets2: Fix4,
    pub allpass_offsets3: Fix4,
    pub delays0: Fix4,
    pub delays1: Fix4,
    pub delays2: Fix4,
    pub delays3: Fix4,
    pub prev_pre_low_cut_hz: i64,
    pub prev_pre_high_cut_hz: i64,
    pub prev_low_shelf_cut_hz: i64,
    pub prev_high_shelf_cut_hz: i64,
    pub prev_size_val: i64,
    pub prev_decay_val: i64,
    pub prev_chorus_freq_hz: i64,
    pub prev_mix_val: i64,
    pub prev_low_shelf_gain_db: i64,
    pub prev_high_shelf_gain_db: i64,
    pub size_mult: i64,
    pub chorus_increment_real: i64,
    pub chorus_increment_imaginary: i64,
    pub sample_rate: i64,
    pub sample_rate_ratio: i64,
}

/// The abstract state an engine value is in.
pub open spec fn engine_model(r: Reverb) -> EngineState {
    EngineState {
        feedback: bank_view(r.feedback_memories@),
        allpass: bank_view(r.allpass_memories@),
        stereo_left: r.stereo_memory.left@,
        stereo_right: r.stereo_memory.right@,
        stereo_size: r.stereo_memory.size as int,
        stereo_offset: r.stereo_memory.offset as int,
        decays0: r.decays0,
        decays1: r.decays1,
        decays2: r.decays2,
        decays3: r.decays3,
        pre_low_filter: r.pre_low_filter,
        pre_high_filter: r.pre_high_filter,
        low_shelf_filter0: r.low_shelf_filter0,
        low_shelf_filter1: r.low_shelf_filter1,
        low_shelf_filter2: r.low_shelf_filter2,
        low_shelf_filter3: r.low_shelf_filter3,
        high_shelf_filter0: r.high_shelf_filter0,
        high_shelf_filter1: r.high_shelf_filter1,
        high_shelf_filter2: r.high_shelf_filter2,
        high_shelf_filter3: r.high_shelf_filter3,
        pre_low_coeff: r.pre_low_coeff,
        pre_high_coeff: r.pre_high_coeff,
        low_shelf_coeff: r.low_shelf_coeff,
        high_shelf_coeff: r.high_shelf_coeff,
        low_shelf_amp: r.low_shelf_amp,
        high_shelf_amp: r.high_shelf_amp,
        chorus_phase: r.chorus_phase,
        chorus_amount: r.chorus_amount,
        sample_delay: r.sample_delay,
        sample_delay_increment: r.sample_delay_increment,
        dry_amp: r.dry_amp,
        wet_amp: r.wet_amp,
        width_coeff: r.width_coeff,
        write_index: r.write_index as int,
        max_feedback_size: r.max_feedback_size as int,
        allpass_size: r.allpass_size as int,
        allpass_offsets0: r.allpass_offsets0,
        allpass_offsets1: r.allpass_offsets1,
        allpass_offsets2: r.allpass_offsets2,
        allpass_offsets3: r.allpass_offsets3,
        delays0: r.delays0,
        delays1: r.delays1,
        delays2: r.delays2,
        delays3: r.delays3,
        prev_pre_low_cut_hz: r.prev_pre_low_cut_hz,
        prev_pre_high_cut_hz: r.prev_pre_high_cut_hz,
        prev_low_shelf_cut_hz: r.prev_low_shelf_cut_hz,
        prev_high_shelf_cut_hz: r.prev_high_shelf_cut_hz,
        prev_size_val: r.prev_size_val,
        prev_decay_val: r.prev_decay_val,
        prev_chorus_freq_hz: r.prev_chorus_freq_hz,
        prev_mix_val: r.prev_mix_val,
        prev_low_shelf_gain_db: r.prev_low_shelf_gain_db,
        prev_high_shelf_gain_db: r.prev_high_shelf_gain_db,
        size_mult: r.size_mult,
        chorus_increment_real: r.chorus_increment_real,
        chorus_increment_imaginary: r.chorus_increment_imaginary,
        sample_rate: r.sample_rate,
        sample_rate_ratio: r.sample_rate_ratio,
    }
}

/// One lane of a vector, by index.
pub open spec fn lane_of(v: Fix4, j: int) -> i64 {
    if j == 0 {
        v.l0
    } else if j == 1 {
        v.l1
    } else if j == 2 {
        v.l2
    } else {
        v.l3
    }
}

/// The network cross-coupling: every row receives the scaled total of all
/// rows, minus half of itself and half of its transpose column.
#[verifier::opaque]
pub open spec fn cross_couple_spec(m: Matrix) -> Matrix {
    let total = sum_rows_spec(m);
    let other = mul_add_fx_spec(
        fx4_splat_spec(fx_mul_spec(fx4_reduce_spec(total) as int, FX_INPUT_SCALE as int) as i64),
        total,
        fx4_splat_spec(FX_NEG_HALF),
    );
    let adj = fx4_mul_spec(sum_rows_spec(transpose_spec(m)), fx4_splat_spec(FX_NEG_HALF));
    Matrix {
        rows: [
            fx4_add_spec(fx4_add_spec(other, m.rows[0]), fx4_splat_spec(adj.l0)),
            fx4_add_spec(fx4_add_spec(other, m.rows[1]), fx4_splat_spec(adj.l1)),
            fx4_add_spec(fx4_add_spec(other, m.rows[2]), fx4_splat_spec(adj.l2)),
            fx4_add_spec(fx4_add_spec(other, m.rows[3]), fx4_splat_spec(adj.l3)),
        ],
    }
}

/// A high-shelf damping step: the filter advances, and the row keeps its
/// high band scaled by the shelf amplitude.
pub open spec fn high_shelf_apply_spec(f: OnePoleFilter, row: Fix4, coeff: Fix4, amp: Fix4) -> (
    OnePoleFilter,
    Fix4,
) {
    let f2 = tick_state_spec(f, row, coeff);
    (f2, fx4_add_spec(f2.current_state, fx4_mul_spec(amp, fx4_sub_spec(row, f2.current_state))))
}

/// A low-shelf damping step: the filter advances, and the row loses its low
/// band scaled by the shelf amplitude.
pub open spec fn low_shelf_apply_spec(f: OnePoleFilter, row: Fix4, coeff: Fix4, amp: Fix4) -> (
    OnePoleFilter,
    Fix4,
) {
    let f2 = tick_state_spec(f, row, coeff);
    (f2, fx4_sub_spec(row, fx4_mul_spec(f2.current_state, amp)))
}

/// What the network computes in one frame before the output stage: the new
/// filter states, both memory banks, and the 16-lane output accumulator.
#[verifier::opaque]
pub open spec fn network_fn(s: EngineState, cur: CurState, ctx: BlockCtx, l: i64, r: i64) -> (
    EngineState,
    CurState,
    Fix4,
) {
    let amount = fx4_add_spec(cur.chorus_amount, ctx.delta_chorus_amount);
    let rot_c = fx4_splat_spec(ctx.chorus_increment_real);
    let rot_s = fx4_splat_spec(ctx.chorus_increment_imaginary);
    let new_real = fx4_sub_spec(
        fx4_mul_spec(cur.chorus_real, rot_c),
        fx4_mul_spec(cur.chorus_imag, rot_s),
    );
    let new_imag = fx4_add_spec(
        fx4_mul_spec(cur.chorus_imag, rot_c),
        fx4_mul_spec(cur.chorus_real, rot_s),
    );
    let drift_real = fx4_mul_spec(new_real, amount);
    let drift_imag = fx4_mul_spec(new_imag, amount);
    let off0 = fx4_add_spec(s.delays0, drift_real);
    let off1 = fx4_sub_spec(s.delays1, drift_real);
    let off2 = fx4_add_spec(s.delays2, drift_imag);
    let off3 = fx4_sub_spec(s.delays3, drift_imag);
    let fb0 = feedback_read_bank_spec(s.feedback, s.write_index, s.max_feedback_size, 0, off0);
    let fb1 = feedback_read_bank_spec(s.feedback, s.write_index, s.max_feedback_size, 1, off1);
    let fb2 = feedback_read_bank_spec(s.feedback, s.write_index, s.max_feedback_size, 2, off2);
    let fb3 = feedback_read_bank_spec(s.feedback, s.write_index, s.max_feedback_size, 3, off3);
    let input = Fix4 { l0: l, l1: r, l2: l, l3: r };
    let phf = tick_state_spec(s.pre_high_filter, input, cur.pre_high_coeff);
    let plf = tick_state_spec(s.pre_low_filter, input, cur.pre_low_coeff);
    let band = fx4_sub_spec(plf.current_state, phf.current_state);
    let scaled = fx4_mul_spec(band, fx4_splat_spec(FX_INPUT_SCALE));
    let ap0 = allpass_read_bank_spec(s.allpass, s.write_index, s.allpass_size, s.allpass_offsets0, 0);
    let ap1 = allpass_read_bank_spec(s.allpass, s.write_index, s.allpass_size, s.allpass_offsets1, 1);
    let ap2 = allpass_read_bank_spec(s.allpass, s.write_index, s.allpass_size, s.allpass_offsets2, 2);
    let ap3 = allpass_read_bank_spec(s.allpass, s.write_index, s.allpass_size, s.allpass_offsets3, 3);
    let fbk = fx4_splat_spec(FX_ALLPASS_FEEDBACK);
    let di0 = fx4_sub_spec(fb0, fx4_mul_spec(ap0, fbk));
    let di1 = fx4_sub_spec(fb1, fx4_mul_spec(ap1, fbk));
    let di2 = fx4_sub_spec(fb2, fx4_mul_spec(ap2, fbk));
    let di3 = fx4_sub_spec(fb3, fx4_mul_spec(ap3, fbk));
    let base = allpass_base_spec(s.write_index, s.allpass_size);
    let ap_bank = Seq::new(4, |c: int| {
        let v = if c == 0 {
            fx4_add_spec(scaled, di0)
        } else if c == 1 {
            fx4_add_spec(scaled, di1)
        } else if c == 2 {
            fx4_add_spec(scaled, di2)
        } else {
            fx4_add_spec(scaled, di3)
        };
        s.allpass[c].update(base, v.l0).update(base + 1, v.l1).update(base + 2, v.l2).update(
            base + 3,
            v.l3,
        )
    });
    let ao = Matrix {
        rows: [
            fx4_add_spec(ap0, fx4_mul_spec(di0, fbk)),
            fx4_add_spec(ap1, fx4_mul_spec(di1, fbk)),
            fx4_add_spec(ap2, fx4_mul_spec(di2, fbk)),
            fx4_add_spec(ap3, fx4_mul_spec(di3, fbk)),
        ],
    };
    let writes = cross_couple_spec(ao);
    let h0 = high_shelf_apply_spec(
        s.high_shelf_filter0,
        writes.rows[0],
        cur.high_shelf_coeff,
        cur.high_shelf_amp,
    );
    let h1 = high_shelf_apply_spec(
        s.high_shelf_filter1,
        writes.rows[1],
        cur.high_shelf_coeff,
        cur.high_shelf_amp,
    );
    let h2 = high_shelf_apply_spec(
        s.high_shelf_filter2,
        writes.rows[2],
        cur.high_shelf_coeff,
        cur.high_shelf_amp,
    );
    let h3 = high_shelf_apply_spec(
        s.high_shelf_filter3,
        writes.rows[3],
        cur.high_shelf_coeff,
        cur.high_shelf_amp,
    );
    let g0 = low_shelf_apply_spec(s.low_shelf_filter0, h0.1, cur.low_shelf_coeff, cur.low_shelf_amp);
    let g1 = low_shelf_apply_spec(s.low_shelf_filter1, h1.1, cur.low_shelf_coeff, cur.low_shelf_amp);
    let g2 = low_shelf_apply_spec(s.low_shelf_filter2, h2.1, cur.low_shelf_coeff, cur.low_shelf_amp);
    let g3 = low_shelf_apply_spec(s.low_shelf_filter3, h3.1, cur.low_shelf_coeff, cur.low_shelf_amp);
    let dec0 = fx4_add_spec(cur.decays0, ctx.delta_decays0);
    let dec1 = fx4_add_spec(cur.decays1, ctx.delta_decays1);
    let dec2 = fx4_add_spec(cur.decays2, ctx.delta_decays2);
    let dec3 = fx4_add_spec(cur.decays3, ctx.delta_decays3);
    let st0 = fx4_mul_spec(dec0, g0.1);
    let st1 = fx4_mul_spec(dec1, g1.1);
    let st2 = fx4_mul_spec(dec2, g2.1);
    let st3 = fx4_mul_spec(dec3, g3.1);
    let fb_bank = Seq::new(16, |k: int| {
        let stv = if k < 4 {
            st0
        } else if k < 8 {
            st1
        } else if k < 12 {
            st2
        } else {
            st3
        };
        s.feedback[k].update(s.write_index + 1, lane_of(stv, k % 4))
    });
    let ff = cross_couple_spec(Matrix { rows: [st0, st1, st2, st3] });
    let total0 = sum_rows_spec(Matrix { rows: [g0.1, g1.1, g2.1, g3.1] });
    let ff_sum = fx4_add_spec(
        fx4_add_spec(
            fx4_add_spec(fx4_mul_spec(ff.rows[0], dec0), fx4_mul_spec(ff.rows[1], dec1)),
            fx4_mul_spec(ff.rows[2], dec2),
        ),
        fx4_mul_spec(ff.rows[3], dec3),
    );
    let total = fx4_add_spec(total0, fx4_mul_spec(ff_sum, fx4_splat_spec(FX_FEED_FORWARD_SCALE)));
    let s2 = EngineState {
        feedback: fb_bank,
        allpass: ap_bank,
        pre_low_filter: plf,
        pre_high_filter: phf,
        low_shelf_filter0: g0.0,
        low_shelf_filter1: g1.0,
        low_shelf_filter2: g2.0,
        low_shelf_filter3: g3.0,
        high_shelf_filter0: h0.0,
        high_shelf_filter1: h1.0,
        high_shelf_filter2: h2.0,
        high_shelf_filter3: h3.0,
        ..s
    };
    let cur2 = CurState {
        chorus_amount: amount,
        chorus_real: new_real,
        chorus_imag: new_imag,
        decays0: dec0,
        decays1: dec1,
        decays2: dec2,
        decays3: dec3,
        ..cur
    };
    (s2, cur2, total)
}

/// What the output stage computes in one frame: the accumulator summed into
/// a stereo pair and pushed into the ring, the wet pair read back at the
/// smoothed pre-delay, width applied, and the equal-power mix of wet and
/// dry.
#[verifier::opaque]
pub open spec fn output_fn(s: EngineState, cur: CurState, total: Fix4, l: i64, r: i64) -> (
    EngineState,
    i64,
    i64,
) {
    let pushv = fx4_add_spec(total, swap_voices_spec(total));
    let so = (s.stereo_offset + 1) % s.stereo_size;
    let sl = s.stereo_left.update(so, pushv.l0).update(so + s.stereo_size, pushv.l0);
    let sr = s.stereo_right.update(so, pushv.l1).update(so + s.stereo_size, pushv.l1);
    let wet = stereo_read_spec(sl, sr, s.stereo_size, so, cur.sample_delay);
    let mid = fx_mul_spec(fx_add_spec(wet.l0 as int, wet.l1 as int), FX_HALF as int);
    let side = fx_mul_spec(fx_sub_spec(wet.l1 as int, wet.l0 as int), cur.width_coeff as int);
    let wet_left = fx_sub_spec(mid, side);
    let wet_right = fx_add_spec(mid, side);
    let out0 = fx_add_spec(
        fx_mul_spec(wet_left, cur.wet_amp.l0 as int),
        fx_mul_spec(l as int, cur.dry_amp.l0 as int),
    ) as i64;
    let out1 = fx_add_spec(
        fx_mul_spec(wet_right, cur.wet_amp.l1 as int),
        fx_mul_spec(r as int, cur.dry_amp.l1 as int),
    ) as i64;
    (EngineState { stereo_left: sl, stereo_right: sr, stereo_offset: so, ..s }, out0, out1)
}

/// How the smoothed registers advance after a frame: every register gains
/// its block delta, and the pre-delay follows its accelerated increment,
/// clamped to the admissible window.
pub open spec fn advance_fn(cur: CurState, ctx: BlockCtx) -> CurState {
    let di = fx4_add_spec(cur.delay_increment, ctx.delta_delay_increment);
    CurState {
        width_coeff: fx_add_spec(cur.width_coeff as int, ctx.delta_width_coeff as int) as i64,
        delay_increment: di,
        sample_delay: fx4_clamp_spec(
            fx4_add_spec(cur.sample_delay, di),
            FX_MIN_DELAY,
            FX_MAX_SAMPLE_RATE,
        ),
        dry_amp: fx4_add_spec(cur.dry_amp, ctx.delta_dry_amp),
        wet_amp: fx4_add_spec(cur.wet_amp, ctx.delta_wet_amp),
        low_shelf_amp: fx4_add_spec(cur.low_shelf_amp, ctx.delta_low_shelf_amp),
        high_shelf_amp: fx4_add_spec(cur.high_shelf_amp, ctx.delta_high_shelf_amp),
        pre_low_coeff: fx4_add_spec(cur.pre_low_coeff, ctx.delta_pre_low_coeff),
        pre_high_coeff: fx4_add_spec(cur.pre_high_coeff, ctx.delta_pre_high_coeff),
        low_shelf_coeff: fx4_add_spec(cur.low_shelf_coeff, ctx.delta_low_shelf_coeff),
        high_shelf_coeff: fx4_add_spec(cur.high_shelf_coeff, ctx.delta_high_shelf_coeff),
        ..cur
    }
}

/// The function one frame computes: the network, the output stage, the ring
/// advance and the register advance, in that order.
#[verifier::opaque]
pub open spec fn frame_fn(s: EngineState, cur: CurState, ctx: BlockCtx, l: i64, r: i64) -> (
    EngineState,
    CurState,
    i64,
    i64,
) {
    let n = network_fn(s, cur, ctx, l, r);
    let o = output_fn(n.0, n.1, n.2, l, r);
    let s2 = EngineState { write_index: (s.write_index + 1) % s.max_feedback_size, ..o.0 };
    (s2, advance_fn(n.1, ctx), o.1, o.2)
}

/// The fold of [`frame_fn`] over a block of input frames: the final state,
/// the final registers, and the two output channels.
pub open spec fn frames_fn(
    s: EngineState,
    cur: CurState,
    ctx: BlockCtx,
    inl: Seq<i64>,
    inr: Seq<i64>,
) -> (EngineState, CurState, Seq<i64>, Seq<i64>)
    decreases inl.len(),
{
    if inl.len() == 0 {
        (s, cur, Seq::empty(), Seq::empty())
    } else {
        let step = frame_fn(s, cur, ctx, inl[0], inr[0]);
        let rest = frames_fn(step.0, step.1, ctx, inl.skip(1), inr.skip(1));
        (rest.0, rest.1, seq![step.2] + rest.2, seq![step.3] + rest.3)
    }
}

/// What one cutoff control does at block entry: if it moved, the shadow
/// value and the coefficient target are refreshed and a ramp is derived.
/// Returns the new shadow value, the new target, the block's starting
/// coefficient and its per-sample delta.
#[verifier::opaque]
pub open spec fn cutoff_prep_spec(prev: i64, target: Fix4, new_cut: i64, sr: i64, tick: i64) -> (
    i64,
    Fix4,
    Fix4,
    Fix4,
) {
    if prev != new_cut {
        let nc = fx4_splat_spec(coeff_lane_spec(new_cut as int, sr as int) as i64);
        (new_cut, nc, target, fx4_mul_spec(fx4_sub_spec(nc, target), fx4_splat_spec(tick)))
    } else {
        (prev, target, target, fx4_splat_spec(0))
    }
}

/// What the mix control does at block entry: a moved mix refreshes the
/// equal-power amplitude targets and derives their ramps.
#[verifier::opaque]
pub open spec fn mix_prep_spec(prev: i64, dry: Fix4, wet: Fix4, mix_val: i64, tick: i64) -> (
    Fix4,
    Fix4,
    Fix4,
    Fix4,
) {
    if prev != mix_val {
        let d2 = fx4_splat_spec(equal_power_fade_spec(mix_val as int) as i64);
        let w2 = fx4_splat_spec(equal_power_fade_inverse_spec(mix_val as int) as i64);
        (
            d2,
            w2,
            fx4_mul_spec(fx4_sub_spec(d2, dry), fx4_splat_spec(tick)),
            fx4_mul_spec(fx4_sub_spec(w2, wet), fx4_splat_spec(tick)),
        )
    } else {
        (dry, wet, fx4_splat_spec(0), fx4_splat_spec(0))
    }
}

/// What one shelf gain does at block entry: a moved gain refreshes the shelf
/// amplitude target (`1 - 10^(g/20)` for the low shelf, `10^(g/20)` for the
/// high one) and derives its ramp.
#[verifier::opaque]
pub open spec fn shelf_prep_spec(prev: i64, amp: Fix4, gain: i64, low: bool, tick: i64) -> (
    Fix4,
    Fix4,
) {
    if prev != gain {
        let a = db_to_amplitude_spec(gain as int);
        let a2 = if low {
            fx4_splat_spec(fx_sub_spec(FX_ONE as int, a) as i64)
        } else {
            fx4_splat_spec(a as i64)
        };
        (a2, fx4_mul_spec(fx4_sub_spec(a2, amp), fx4_splat_spec(tick)))
    } else {
        (amp, fx4_splat_spec(0))
    }
}

/// The size and decay preparation at block entry: the size multiplier, the
/// per-line decay coefficients and the per-line delays, refreshed when
/// either control moved.  Returns the new size multiplier, the four decay
/// targets, the four delay vectors and the four decay deltas.
#[verifier::opaque]
pub open spec fn size_decay_prep_spec(
    prev_size: i64,
    prev_decay: i64,
    size_mult0: i64,
    dec0: Fix4,
    dec1: Fix4,
    dec2: Fix4,
    dec3: Fix4,
    del0: Fix4,
    del1: Fix4,
    del2: Fix4,
    del3: Fix4,
    ratio0: i64,
    size_val: i64,
    decay_val: i64,
    tick: i64,
) -> (
    i64,
    (Fix4, Fix4, Fix4, Fix4),
    (Fix4, Fix4, Fix4, Fix4),
    (Fix4, Fix4, Fix4, Fix4),
) {
    if prev_size != size_val || prev_decay != decay_val {
        let sm = if prev_size != size_val {
            crate::approx::exp2_spec(
                fx_sub_spec(
                    fx_mul_spec(size_val as int, crate::matrix::FX_FOUR as int),
                    FX_THREE as int,
                ),
            ) as i64
        } else {
            size_mult0
        };
        let ds = fx_mul_spec(decay_val as int, crate::reverb::FX_BASE_SAMPLE_RATE as int);
        let d0 = container_decays_spec(feedback_delay_spec(0), sm as int, ds);
        let d1 = container_decays_spec(feedback_delay_spec(1), sm as int, ds);
        let d2 = container_decays_spec(feedback_delay_spec(2), sm as int, ds);
        let d3 = container_decays_spec(feedback_delay_spec(3), sm as int, ds);
        let ratio = fx4_mul_spec(fx4_splat_spec(sm), fx4_splat_spec(ratio0));
        (
            sm,
            (d0, d1, d2, d3),
            (
                fx4_mul_spec(feedback_delay_spec(0), ratio),
                fx4_mul_spec(feedback_delay_spec(1), ratio),
                fx4_mul_spec(feedback_delay_spec(2), ratio),
                fx4_mul_spec(feedback_delay_spec(3), ratio),
            ),
            (
                fx4_mul_spec(fx4_sub_spec(d0, dec0), fx4_splat_spec(tick)),
                fx4_mul_spec(fx4_sub_spec(d1, dec1), fx4_splat_spec(tick)),
                fx4_mul_spec(fx4_sub_spec(d2, dec2), fx4_splat_spec(tick)),
                fx4_mul_spec(fx4_sub_spec(d3, dec3), fx4_splat_spec(tick)),
            ),
        )
    } else {
        (
            size_mult0,
            (dec0, dec1, dec2, dec3),
            (del0, del1, del2, del3),
            (fx4_splat_spec(0), fx4_splat_spec(0), fx4_splat_spec(0), fx4_splat_spec(0)),
        )
    }
}

/// The chorus preparation at block entry, over the delays the block will
/// use: the rotation step (refreshed when the frequency moved), the
/// oscillator values at the current per-container phases, the advanced
/// phase, and the excursion target capped under every line's delay.
/// Returns the rotation pair, the phase, the oscillator pair, the excursion
/// target and its delta.
#[verifier::opaque]
pub open spec fn chorus_prep_spec(
    prev_freq: i64,
    cir0: i64,
    cii0: i64,
    phase0: i64,
    sample_rate: i64,
    ratio0: i64,
    amount0: Fix4,
    d0: Fix4,
    d1: Fix4,
    d2: Fix4,
    d3: Fix4,
    chorus_freq: i64,
    amount_val: i64,
    frames: int,
    tick: i64,
) -> ((i64, i64), i64, (Fix4, Fix4), Fix4, Fix4) {
    let phase_inc = fx_div_spec(chorus_freq as int, sample_rate as int) as i64;
    let rot = if prev_freq != chorus_freq {
        (
            crate::approx::cos2pi_spec(phase_inc as int) as i64,
            crate::approx::sin2pi_spec(phase_inc as int) as i64,
        )
    } else {
        (cir0, cii0)
    };
    let t0 = (phase0 as int) % (FX_ONE as int);
    let t1 = (phase0 + FX_SIXTEENTH_TURN) % (FX_ONE as int);
    let t2 = (phase0 + 2 * FX_SIXTEENTH_TURN) % (FX_ONE as int);
    let t3 = (phase0 + 3 * FX_SIXTEENTH_TURN) % (FX_ONE as int);
    let creal = Fix4 {
        l0: crate::approx::cos2pi_spec(t0) as i64,
        l1: crate::approx::cos2pi_spec(t1) as i64,
        l2: crate::approx::cos2pi_spec(t2) as i64,
        l3: crate::approx::cos2pi_spec(t3) as i64,
    };
    let cimag = Fix4 {
        l0: crate::approx::sin2pi_spec(t0) as i64,
        l1: crate::approx::sin2pi_spec(t1) as i64,
        l2: crate::approx::sin2pi_spec(t2) as i64,
        l3: crate::approx::sin2pi_spec(t3) as i64,
    };
    let phase2 = ((phase0 + frames * phase_inc) % (FX_ONE as int)) as i64;
    let base = fx_mul_spec(
        fx_mul_spec(amount_val as int, FX_MAX_CHORUS_DRIFT as int),
        ratio0 as int,
    ) as i64;
    let guard = fx4_splat_spec(FX_CHORUS_GUARD);
    let amount = fx4_min_spec(
        fx4_min_spec(
            fx4_min_spec(
                fx4_min_spec(fx4_splat_spec(base), fx4_sub_spec(d0, guard)),
                fx4_sub_spec(d1, guard),
            ),
            fx4_sub_spec(d2, guard),
        ),
        fx4_sub_spec(d3, guard),
    );
    (
        rot,
        phase2,
        (creal, cimag),
        amount,
        fx4_mul_spec(fx4_sub_spec(amount, amount0), fx4_splat_spec(tick)),
    )
}

/// What block entry computes from the old state, the controls and the block
/// length: the state with every shadow value, target and ramp refreshed and
/// the guard samples of the feedback lines renewed, the block's deltas, and
/// the starting registers.
#[verifier::opaque]
pub open spec fn prep_fn(s: EngineState, p: ReverbParams, frames: int) -> (
    EngineState,
    BlockCtx,
    CurState,
) {
    let tick = ((FX_ONE as int) / frames) as i64;
    let fbg = Seq::new(16, |k: int| guard_refresh_spec(s.feedback[k], s.max_feedback_size));
    let c0 = cutoff_prep_spec(
        s.prev_pre_low_cut_hz,
        s.pre_low_coeff,
        fx_clamp_spec(
            p.pre_low_cut_hz as int,
            ReverbParams::MIN_CUTOFF_FREQ as int,
            ReverbParams::MAX_CUTOFF_FREQ as int,
        ) as i64,
        s.sample_rate,
        tick,
    );
    let c1 = cutoff_prep_spec(
        s.prev_pre_high_cut_hz,
        s.pre_high_coeff,
        fx_clamp_spec(
            p.pre_high_cut_hz as int,
            ReverbParams::MIN_CUTOFF_FREQ as int,
            ReverbParams::MAX_CUTOFF_FREQ as int,
        ) as i64,
        s.sample_rate,
        tick,
    );
    let c2 = cutoff_prep_spec(
        s.prev_low_shelf_cut_hz,
        s.low_shelf_coeff,
        fx_clamp_spec(
            p.low_shelf_cut_hz as int,
            ReverbParams::MIN_CUTOFF_FREQ as int,
            ReverbParams::MAX_CUTOFF_FREQ as int,
        ) as i64,
        s.sample_rate,
        tick,
    );
    let c3 = cutoff_prep_spec(
        s.prev_high_shelf_cut_hz,
        s.high_shelf_coeff,
        fx_clamp_spec(
            p.high_shelf_cut_hz as int,
            ReverbParams::MIN_CUTOFF_FREQ as int,
            ReverbParams::MAX_CUTOFF_FREQ as int,
        ) as i64,
        s.sample_rate,
        tick,
    );
    let mix_val = fx_clamp_spec(p.mix as int, 0, FX_ONE as int) as i64;
    let mx = mix_prep_spec(s.prev_mix_val, s.dry_amp, s.wet_amp, mix_val, tick);
    let low_gain = fx_clamp_spec(
        p.low_shelf_gain_db as int,
        ReverbParams::MIN_SHELF_GAIN_DB as int,
        0,
    ) as i64;
    let high_gain = fx_clamp_spec(
        p.high_shelf_gain_db as int,
        ReverbParams::MIN_SHELF_GAIN_DB as int,
        0,
    ) as i64;
    let sl = shelf_prep_spec(s.prev_low_shelf_gain_db, s.low_shelf_amp, low_gain, true, tick);
    let sh = shelf_prep_spec(s.prev_high_shelf_gain_db, s.high_shelf_amp, high_gain, false, tick);
    let width2 = fx_mul_spec(
        fx_add_spec(
            fx_clamp_spec(p.width as int, -(FX_ONE as int), FX_ONE as int),
            FX_ONE as int,
        ),
        FX_HALF as int,
    ) as i64;
    let dwidth = fx_mul_spec(fx_sub_spec(width2 as int, s.width_coeff as int), tick as int) as i64;
    let size_val = fx_clamp_spec(p.size as int, 0, FX_ONE as int) as i64;
    let decay_val = fx_clamp_spec(
        p.decay as int,
        ReverbParams::MIN_DECAY_SECONDS as int,
        ReverbParams::MAX_DECAY_SECONDS as int,
    ) as i64;
    let sd = size_decay_prep_spec(
        s.prev_size_val,
        s.prev_decay_val,
        s.size_mult,
        s.decays0,
        s.decays1,
        s.decays2,
        s.decays3,
        s.delays0,
        s.delays1,
        s.delays2,
        s.delays3,
        s.sample_rate_ratio,
        size_val,
        decay_val,
        tick,
    );
    let chorus_freq = fx_clamp_spec(
        p.chorus_freq_hz as int,
        ReverbParams::MIN_CHORUS_FREQ as int,
        ReverbParams::MAX_CHORUS_FREQ as int,
    ) as i64;
    let amount_val = fx_clamp_spec(p.chorus_amount as int, 0, FX_ONE as int) as i64;
    let ch = chorus_prep_spec(
        s.prev_chorus_freq_hz,
        s.chorus_increment_real,
        s.chorus_increment_imaginary,
        s.chorus_phase,
        s.sample_rate,
        s.sample_rate_ratio,
        s.chorus_amount,
        sd.2.0,
        sd.2.1,
        sd.2.2,
        sd.2.3,
        chorus_freq,
        amount_val,
        frames,
        tick,
    );
    let end_target = fx4_add_spec(
        s.sample_delay,
        fx4_mul_spec(s.sample_delay_increment, fx4_splat_spec((frames * FX_ONE) as i64)),
    );
    let raw_target = fx_clamp_spec(
        fx_mul_spec(p.delay as int, s.sample_rate as int),
        FX_MIN_DELAY as int,
        FX_MAX_SAMPLE_RATE as int,
    ) as i64;
    let target = mul_add_fx_spec(
        s.sample_delay,
        fx4_sub_spec(fx4_splat_spec(raw_target), s.sample_delay),
        fx4_splat_spec(FX_DELAY_SMOOTH),
    );
    let makeup = fx4_sub_spec(target, end_target);
    let half_ff = (frames * frames * FX_HALF) as i64;
    let dinc = fx4_mul_spec(fx4_divs_spec(makeup, half_ff), fx4_splat_spec(FX_DELAY_SMOOTH));
    let ctx = BlockCtx {
        delta_pre_low_coeff: c0.3,
        delta_pre_high_coeff: c1.3,
        delta_low_shelf_coeff: c2.3,
        delta_high_shelf_coeff: c3.3,
        delta_dry_amp: mx.2,
        delta_wet_amp: mx.3,
        delta_low_shelf_amp: sl.1,
        delta_high_shelf_amp: sh.1,
        delta_width_coeff: dwidth,
        delta_decays0: sd.3.0,
        delta_decays1: sd.3.1,
        delta_decays2: sd.3.2,
        delta_decays3: sd.3.3,
        delta_chorus_amount: ch.4,
        delta_delay_increment: dinc,
        chorus_increment_real: ch.0.0,
        chorus_increment_imaginary: ch.0.1,
    };
    let cur = CurState {
        pre_low_coeff: c0.2,
        pre_high_coeff: c1.2,
        low_shelf_coeff: c2.2,
        high_shelf_coeff: c3.2,
        dry_amp: s.dry_amp,
        wet_amp: s.wet_amp,
        low_shelf_amp: s.low_shelf_amp,
        high_shelf_amp: s.high_shelf_amp,
        width_coeff: s.width_coeff,
        decays0: s.decays0,
        decays1: s.decays1,
        decays2: s.decays2,
        decays3: s.decays3,
        chorus_amount: s.chorus_amount,
        chorus_real: ch.2.0,
        chorus_imag: ch.2.1,
        sample_delay: s.sample_delay,
        delay_increment: s.sample_delay_increment,
    };
    let s2 = EngineState {
        feedback: fbg,
        prev_pre_low_cut_hz: c0.0,
        prev_pre_high_cut_hz: c1.0,
        prev_low_shelf_cut_hz: c2.0,
        prev_high_shelf_cut_hz: c3.0,
        pre_low_coeff: c0.1,
        pre_high_coeff: c1.1,
        low_shelf_coeff: c2.1,
        high_shelf_coeff: c3.1,
        prev_mix_val: mix_val,
        dry_amp: mx.0,
        wet_amp: mx.1,
        prev_low_shelf_gain_db: low_gain,
        prev_high_shelf_gain_db: high_gain,
        low_shelf_amp: sl.0,
        high_shelf_amp: sh.0,
        width_coeff: width2,
        prev_size_val: size_val,
        prev_decay_val: decay_val,
        size_mult: sd.0,
        decays0: sd.1.0,
        decays1: sd.1.1,
        decays2: sd.1.2,
        decays3: sd.1.3,
        delays0: sd.2.0,
        delays1: sd.2.1,
        delays2: sd.2.2,
        delays3: sd.2.3,
        prev_chorus_freq_hz: chorus_freq,
        chorus_increment_real: ch.0.0,
        chorus_increment_imaginary: ch.0.1,
        chorus_phase: ch.1,
        chorus_amount: ch.3,
        ..s
    };
    (s2, ctx, cur)
}

/// What one block computes: the entry preparation, the per-frame fold, and
/// the smoothed pre-delay written back.
#[verifier::opaque]
pub open spec fn block_fn(s: EngineState, p: ReverbParams, inl: Seq<i64>, inr: Seq<i64>) -> (
    EngineState,
    Seq<i64>,
    Seq<i64>,
) {
    let prep = prep_fn(s, p, inl.len() as int);
    let f = frames_fn(prep.0, prep.2, prep.1, inl, inr);
    (
        EngineState {
            sample_delay: f.1.sample_delay,
            sample_delay_increment: f.1.delay_increment,
            ..f.0
        },
        f.2,
        f.3,
    )
}

/// What a whole call computes: [`block_fn`] folded over the input in blocks
/// of at most 128 frames.
#[verifier::opaque]
pub open spec fn process_fn(s: EngineState, p: ReverbParams, inl: Seq<i64>, inr: Seq<i64>) -> (
    EngineState,
    Seq<i64>,
    Seq<i64>,
)
    decreases inl.len(),
{
    if inl.len() == 0 {
        (s, Seq::empty(), Seq::empty())
    } else {
        let n: int = if inl.len() < 128 {
            inl.len() as int
        } else {
            128
        };
        let b = block_fn(s, p, inl.take(n), inr.take(n));
        let rest = process_fn(b.0, p, inl.skip(n), inr.skip(n));
        (rest.0, b.1 + rest.1, b.2 + rest.2)
    }
}

/// One block hands back one output sample per input frame.
pub proof fn lemma_block_len(s: EngineState, p: ReverbParams, inl: Seq<i64>, inr: Seq<i64>)
    ensures
        block_fn(s, p, inl, inr).1.len() == inl.len(),
        block_fn(s, p, inl, inr).2.len() == inl.len(),
{
    reveal(block_fn);
    let prep = prep_fn(s, p, inl.len() as int);
    lemma_frames_len(prep.0, prep.2, prep.1, inl, inr);
}

/// A whole call hands back one output sample per input frame.
pub proof fn lemma_process_len(s: EngineState, p: ReverbParams, inl: Seq<i64>, inr: Seq<i64>)
    ensures
        process_fn(s, p, inl, inr).1.len() == inl.len(),
        process_fn(s, p, inl, inr).2.len() == inl.len(),
    decreases inl.len(),
{
    reveal(process_fn);
    if inl.len() != 0 {
        let n: int = if inl.len() < 128 {
            inl.len() as int
        } else {
            128
        };
        lemma_block_len(s, p, inl.take(n), inr.take(n));
        let b = block_fn(s, p, inl.take(n), inr.take(n));
        lemma_process_len(b.0, p, inl.skip(n), inr.skip(n));
    }
}

/// The per-frame fold hands back one output sample per input frame.
pub proof fn lemma_frames_len(
    s: EngineState,
    cur: CurState,
    ctx: BlockCtx,
    inl: Seq<i64>,
    inr: Seq<i64>,
)
    ensures
        frames_fn(s, cur, ctx, inl, inr).2.len() == inl.len(),
        frames_fn(s, cur, ctx, inl, inr).3.len() == inl.len(),
    decreases inl.len(),
{
    if inl.len() != 0 {
        let step = frame_fn(s, cur, ctx, inl[0], inr[0]);
        lemma_frames_len(step.0, step.1, ctx, inl.skip(1), inr.skip(1));
    }
}

/// Every control clamped to its admissible range.
pub open spec fn clamp_params_spec(p: ReverbParams) -> ReverbParams {
    ReverbParams {
        mix: fx_clamp_spec(p.mix as int, 0, FX_ONE as int) as i64,
        size: fx_clamp_spec(p.size as int, 0, FX_ONE as int) as i64,
        decay: fx_clamp_spec(
            p.decay as int,
            ReverbParams::MIN_DECAY_SECONDS as int,
            ReverbParams::MAX_DECAY_SECONDS as int,
        ) as i64,
        delay: p.delay,
        width: fx_clamp_spec(p.width as int, -(FX_ONE as int), FX_ONE as int) as i64,
        chorus_freq_hz: fx_clamp_spec(
            p.chorus_freq_hz as int,
            ReverbParams::MIN_CHORUS_FREQ as int,
            ReverbParams::MAX_CHORUS_FREQ as int,
        ) as i64,
        chorus_amount: fx_clamp_spec(p.chorus_amount as int, 0, FX_ONE as int) as i64,
        pre_low_cut_hz: fx_clamp_spec(
            p.pre_low_cut_hz as int,
            ReverbParams::MIN_CUTOFF_FREQ as int,
            ReverbParams::MAX_CUTOFF_FREQ as int,
        ) as i64,
        pre_high_cut_hz: fx_clamp_spec(
            p.pre_high_cut_hz as int,
            ReverbParams::MIN_CUTOFF_FREQ as int,
            ReverbParams::MAX_CUTOFF_FREQ as int,
        ) as i64,
        low_shelf_cut_hz: fx_clamp_spec(
            p.low_shelf_cut_hz as int,
            ReverbParams::MIN_CUTOFF_FREQ as int,
            ReverbParams::MAX_CUTOFF_FREQ as int,
        ) as i64,
        low_shelf_gain_db: fx_clamp_spec(
            p.low_shelf_gain_db as int,
            ReverbParams::MIN_SHELF_GAIN_DB as int,
            0,
        ) as i64,
        high_shelf_cut_hz: fx_clamp_spec(
            p.high_shelf_cut_hz as int,
            ReverbParams::MIN_CUTOFF_FREQ as int,
            ReverbParams::MAX_CUTOFF_FREQ as int,
        ) as i64,
        high_shelf_gain_db: fx_clamp_spec(
            p.high_shelf_gain_db as int,
            ReverbParams::MIN_SHELF_GAIN_DB as int,
            0,
        ) as i64,
    }
}

/// Out-of-range controls are never rejected: a block prepared with any
/// parameter snapshot behaves exactly as one prepared with the pre-clamped
/// snapshot.  The pre-delay control needs no clamp of its own: the block
/// clamps the derived delay in samples.
pub proof fn lemma_prep_clamps(s: EngineState, p: ReverbParams, frames: int)
    ensures
        prep_fn(s, p, frames) == prep_fn(s, clamp_params_spec(p), frames),
{
    reveal(prep_fn);
}

/// A whole call with any parameter snapshot equals the call with the
/// pre-clamped snapshot: the engine clamps at every block entry.
pub proof fn lemma_process_clamps(s: EngineState, p: ReverbParams, inl: Seq<i64>, inr: Seq<i64>)
    ensures
        process_fn(s, p, inl, inr) == process_fn(s, clamp_params_spec(p), inl, inr),
    decreases inl.len(),
{
    reveal(process_fn);
    reveal(block_fn);
    if inl.len() != 0 {
        let n: int = if inl.len() < 128 {
            inl.len() as int
        } else {
            128
        };
        lemma_prep_clamps(s, p, inl.take(n).len() as int);
        let b = block_fn(s, p, inl.take(n), inr.take(n));
        lemma_process_clamps(b.0, p, inl.skip(n), inr.skip(n));
    }
}

} // verus!
