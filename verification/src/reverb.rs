//! The reverb engine: a 16-lane feedback-delay network carried as four
//! 4-wide containers, with nested allpass diffusion, chorus-modulated delay
//! reads, shelf damping, stereo width and an equal-power wet/dry mix.
//!
//! All state lives in fixed point (see [`crate::fixed`]).  `init` sizes and
//! clears every buffer for a sample rate; `process` splits its input into
//! blocks of at most [`MAX_BLOCK_SIZE`] frames, derives smoothed per-sample
//! coefficient ramps at each block entry, and runs the per-sample network.

use vstd::prelude::*;

verus! {

use crate::approx::{cos2pi, exp2_fx, sin2pi};
use crate::fixed::{
    fx_add, fx_add_spec, fx_clamp, fx_clamp_spec, fx_clip, fx_div, fx_div_spec, fx_floor,
    fx_floor_spec, fx_mul, fx_mul_spec, fx_sub, fx_sub_spec, lemma_fx_floor_bounds, FX_ONE,
    FX_SAT,
};
use crate::matrix::{polynomial_kernel_spec, transpose_spec, Matrix, FX_HALF, FX_NEG_HALF, FX_THREE};
use crate::one_pole_filter::OnePoleFilter;
use crate::params::ReverbParams;
use crate::poly_utils::{
    fx4_splat_spec, interpolate_fx, mul_add_fx, swap_stereo_x4, swap_voices_x4, zero_fill, zeros,
    Fix4,
};
use crate::stereo_memory::StereoMemory;
use crate::utils::{db_to_amplitude, equal_power_fade, equal_power_fade_inverse};
use vstd::arithmetic::power2::is_pow2;

/// The longest block `process` hands to the per-sample loop; parameter
/// smoothing ramps span at most this many frames.
pub const MAX_BLOCK_SIZE: usize = 128;

/// The amplitude that counts as the end of the tail: 0.001, held as its
/// base-two logarithm in fixed point.
pub const FX_T60_LOG2: i64 = -10449882;

/// The allpass feedback constant 0.6, shared by all 16 lanes.
pub const FX_ALLPASS_FEEDBACK: i64 = 629146;

/// The shortest pre-delay, in samples.
pub const FX_MIN_DELAY: i64 = 3145728;

/// The highest supported sample rate, 192000 Hz, in fixed point.
pub const FX_MAX_SAMPLE_RATE: i64 = 201326592000;

/// The base sample rate, 44100 Hz, in fixed point.
pub const FX_BASE_SAMPLE_RATE: i64 = 46242201600;

/// The largest chorus drift, 2500 samples at the base rate, in fixed point.
pub const FX_MAX_CHORUS_DRIFT: i64 = 2621440000;

/// The input attenuation 0.25 applied before the network.
pub const FX_INPUT_SCALE: i64 = 262144;

/// The feed-forward mix of the second allpass stage, 0.125.
pub const FX_FEED_FORWARD_SCALE: i64 = 131072;

/// The pre-delay smoothing gain, 0.05, used for both the target pull and
/// the increment correction.
pub const FX_DELAY_SMOOTH: i64 = 52429;

/// One sixteenth of a turn: the chorus phase offset between containers.
pub const FX_SIXTEENTH_TURN: i64 = 65536;

/// 32 samples in fixed point: the guard width kept between the chorus
/// excursion and the shortest feedback delay.
pub const FX_CHORUS_GUARD: i64 = 33554432;

/// The starting filter coefficient, 0.1.
pub const FX_DEFAULT_COEFF: i64 = 104858;

/// A shadow gain no real control reaches, so the first block always
/// recomputes the shelf amplitudes.
pub const FX_UNSET_GAIN: i64 = -1048576000;

/// The per-lane feedback delay constants of container `c`, in samples at the
/// base rate, in fixed point.
pub open spec fn feedback_delay_spec(c: int) -> Fix4 {
    if c == 0 {
        Fix4 { l0: 7081243443, l1: 9729107558, l2: 8078753792, l3: 11878793216 }
    } else if c == 1 {
        Fix4 { l0: 10172361605, l1: 5780275200, l2: 8892396339, l3: 5912553062 }
    } else if c == 2 {
        Fix4 { l0: 3272322580, l1: 3596091392, l2: 3802524549, l3: 8088211948 }
    } else {
        Fix4 { l0: 4741178327, l1: 6835635487, l2: 5521339843, l3: 5903745024 }
    }
}

/// The per-lane allpass delay constants of container `c`, in 4-sample units.
pub open spec fn allpass_delay_spec(c: int) -> Fix4 {
    if c == 0 {
        Fix4 { l0: 1001, l1: 799, l2: 933, l3: 876 }
    } else if c == 1 {
        Fix4 { l0: 895, l1: 807, l2: 907, l3: 853 }
    } else if c == 2 {
        Fix4 { l0: 957, l1: 1019, l2: 711, l3: 567 }
    } else {
        Fix4 { l0: 833, l1: 779, l2: 663, l3: 997 }
    }
}

/// The allpass read offsets of container `c` at buffer scale `scale`: each
/// lane's delay scaled to samples plus the lane-order offset `[4, 3, 2, 1]`,
/// then pair-swapped.
pub open spec fn allpass_offset_spec(c: int, scale: int) -> Fix4 {
    let d = allpass_delay_spec(c);
    let v = Fix4 {
        l0: (d.l0 * scale * 4 + 4) as i64,
        l1: (d.l1 * scale * 4 + 3) as i64,
        l2: (d.l2 * scale * 4 + 2) as i64,
        l3: (d.l3 * scale * 4 + 1) as i64,
    };
    Fix4 { l0: v.l1, l1: v.l0, l2: v.l3, l3: v.l2 }
}

/// One lane of the per-line decay coefficient:
/// `0.001 ^ (delay * size_mult / decay_samples)`, computed through the
/// base-two exponential.
#[verifier::opaque]
pub open spec fn decay_lane_spec(fdelay: int, size_mult: int, decay_samples: int) -> int {
    crate::approx::exp2_spec(
        fx_mul_spec(FX_T60_LOG2 as int, fx_div_spec(fx_mul_spec(fdelay, size_mult), decay_samples)),
    )
}

/// The per-line decay coefficients of one container.
#[verifier::opaque]
pub open spec fn container_decays_spec(fdelay: Fix4, size_mult: int, decay_samples: int) -> Fix4 {
    Fix4 {
        l0: decay_lane_spec(fdelay.l0 as int, size_mult, decay_samples) as i64,
        l1: decay_lane_spec(fdelay.l1 as int, size_mult, decay_samples) as i64,
        l2: decay_lane_spec(fdelay.l2 as int, size_mult, decay_samples) as i64,
        l3: decay_lane_spec(fdelay.l3 as int, size_mult, decay_samples) as i64,
    }
}

/// The buffer scale for a sample rate: the smallest power of two whose
/// multiple of the base rate reaches it.
pub open spec fn buffer_scale_spec(sr: int) -> int {
    if sr <= 44100 {
        1
    } else if sr <= 88200 {
        2
    } else if sr <= 176400 {
        4
    } else {
        8
    }
}

/// Every lane of `a` at most the matching lane of `b`.
pub open spec fn lanes_at_most(a: Fix4, b: Fix4) -> bool {
    a.l0 <= b.l0 && a.l1 <= b.l1 && a.l2 <= b.l2 && a.l3 <= b.l3
}

/// All four lanes of a vector equal.
pub open spec fn lanes_equal(v: Fix4) -> bool {
    v.l0 == v.l1 && v.l1 == v.l2 && v.l2 == v.l3
}

/// The reverb engine.  `init` must run before `process`.
pub struct Reverb {
    /// The output ring the wet signal is read from.
    pub stereo_memory: StereoMemory,
    /// Four interleaved allpass buffers, one per container.
    pub allpass_memories: Vec<Vec<i64>>,
    /// Sixteen feedback delay lines, four per container, each with a
    /// four-sample guard region past the ring.
    pub feedback_memories: Vec<Vec<i64>>,
    /// Per-container decay coefficient targets.
    pub decays0: Fix4,
    pub decays1: Fix4,
    pub decays2: Fix4,
    pub decays3: Fix4,
    /// The pre-filters applied to the input.
    pub pre_low_filter: OnePoleFilter,
    pub pre_high_filter: OnePoleFilter,
    /// The per-container shelf damping filters.
    pub low_shelf_filter0: OnePoleFilter,
    pub low_shelf_filter1: OnePoleFilter,
    pub low_shelf_filter2: OnePoleFilter,
    pub low_shelf_filter3: OnePoleFilter,
    pub high_shelf_filter0: OnePoleFilter,
    pub high_shelf_filter1: OnePoleFilter,
    pub high_shelf_filter2: OnePoleFilter,
    pub high_shelf_filter3: OnePoleFilter,
    /// Filter coefficient targets.
    pub pre_low_coeff: Fix4,
    pub pre_high_coeff: Fix4,
    pub low_shelf_coeff: Fix4,
    pub high_shelf_coeff: Fix4,
    /// Shelf amplitude targets.
    pub low_shelf_amp: Fix4,
    pub high_shelf_amp: Fix4,
    /// The chorus oscillator phase, in turns.
    pub chorus_phase: i64,
    /// The chorus excursion target, in samples.
    pub chorus_amount: Fix4,
    /// The smoothed pre-delay, in samples.
    pub sample_delay: Fix4,
    /// The per-sample velocity of the pre-delay.
    pub sample_delay_increment: Fix4,
    /// Equal-power mix amplitude targets.
    pub dry_amp: Fix4,
    pub wet_amp: Fix4,
    /// The stereo width target, `0.5 * (width + 1)`.
    pub width_coeff: i64,
    /// The ring write position of the feedback network.
    pub write_index: usize,
    /// The feedback ring length; a power of two.
    pub max_feedback_size: usize,
    /// A quarter of the allpass ring length.
    pub allpass_quarter: usize,
    /// The allpass ring length; a power of two.
    pub allpass_size: usize,
    /// Per-container allpass read offsets.
    pub allpass_offsets0: Fix4,
    pub allpass_offsets1: Fix4,
    pub allpass_offsets2: Fix4,
    pub allpass_offsets3: Fix4,
    /// Per-container feedback delays, in samples.
    pub delays0: Fix4,
    pub delays1: Fix4,
    pub delays2: Fix4,
    pub delays3: Fix4,
    /// The last committed control values; used only to skip recomputation.
    pub prev_pre_low_cut_hz: i64,
    pub prev_pre_high_cut_hz: i64,
    pub prev_low_shelf_cut_hz: i64,
    pub prev_high_shelf_cut_hz: i64,
    pub prev_size_val: i64,
    pub prev_decay_val: i64,
    pub prev_chorus_freq_hz: i64,
    pub prev_mix_val: i64,
    pub prev_low_shelf_gain_db: i64,
    pub prev_high_shelf_gain_db: i64,
    /// The size multiplier `2^(size*4 - 3)`.
    pub size_mult: i64,
    /// The per-sample chorus rotation.
    pub chorus_increment_real: i64,
    pub chorus_increment_imaginary: i64,
    /// The sample rate, in fixed point.
    pub sample_rate: i64,
    /// The ratio of the sample rate to the base rate.
    pub sample_rate_ratio: i64,
    /// The power-of-two factor the buffers are scaled by.
    pub buffer_scale: usize,
    /// True once `init` has run.
    pub did_init: bool,
}

impl Reverb {
    /// The structural invariant that `init` establishes and every call
    /// preserves.
    pub open spec fn wf(self) -> bool {
        &&& self.stereo_memory.wf()
        &&& self.stereo_memory.size >= 262144
        &&& self.feedback_memories@.len() == 16
        &&& forall|k: int|
            0 <= k < 16 ==> (#[trigger] self.feedback_memories@[k])@.len()
                == self.max_feedback_size + 4
        &&& self.allpass_memories@.len() == 4
        &&& forall|k: int|
            0 <= k < 4 ==> (#[trigger] self.allpass_memories@[k])@.len() == self.allpass_size
        &&& 1 <= self.buffer_scale <= 8
        &&& self.max_feedback_size == self.buffer_scale * 32768
        &&& self.allpass_quarter == self.buffer_scale * 1024
        &&& self.allpass_size == self.buffer_scale * 4096
        &&& is_pow2(self.max_feedback_size as int)
        &&& is_pow2(self.allpass_size as int)
        &&& self.write_index < self.max_feedback_size
        &&& 0 <= self.chorus_phase < FX_ONE
        &&& FX_MIN_DELAY <= self.sample_delay.l0 <= FX_MAX_SAMPLE_RATE
        &&& FX_MIN_DELAY <= self.sample_delay.l1 <= FX_MAX_SAMPLE_RATE
        &&& FX_MIN_DELAY <= self.sample_delay.l2 <= FX_MAX_SAMPLE_RATE
        &&& FX_MIN_DELAY <= self.sample_delay.l3 <= FX_MAX_SAMPLE_RATE
        &&& FX_BASE_SAMPLE_RATE <= self.sample_rate <= FX_MAX_SAMPLE_RATE
        &&& 0 < self.allpass_offsets0.l0 < self.allpass_size
        &&& 0 < self.allpass_offsets0.l1 < self.allpass_size
        &&& 0 < self.allpass_offsets0.l2 < self.allpass_size
        &&& 0 < self.allpass_offsets0.l3 < self.allpass_size
        &&& 0 < self.allpass_offsets1.l0 < self.allpass_size
        &&& 0 < self.allpass_offsets1.l1 < self.allpass_size
        &&& 0 < self.allpass_offsets1.l2 < self.allpass_size
        &&& 0 < self.allpass_offsets1.l3 < self.allpass_size
        &&& 0 < self.allpass_offsets2.l0 < self.allpass_size
        &&& 0 < self.allpass_offsets2.l1 < self.allpass_size
        &&& 0 < self.allpass_offsets2.l2 < self.allpass_size
        &&& 0 < self.allpass_offsets2.l3 < self.allpass_size
        &&& 0 < self.allpass_offsets3.l0 < self.allpass_size
        &&& 0 < self.allpass_offsets3.l1 < self.allpass_size
        &&& 0 < self.allpass_offsets3.l2 < self.allpass_size
        &&& 0 < self.allpass_offsets3.l3 < self.allpass_size
        &&& 0 <= self.size_mult <= 8388536
        &&& lanes_equal(self.dry_amp)
        &&& lanes_equal(self.wet_amp)
        &&& (self.prev_mix_val == 0 ==> self.dry_amp == fx4_splat_spec(FX_ONE)
            && self.wet_amp == fx4_splat_spec(0))
        &&& (self.prev_mix_val == FX_ONE ==> self.dry_amp == fx4_splat_spec(0)
            && self.wet_amp == fx4_splat_spec(FX_ONE))
    }

    /// A filter at rest.
    pub open spec fn filter_at_rest(f: OnePoleFilter) -> bool {
        f.current_state == fx4_splat_spec(0) && f.filter_state == fx4_splat_spec(0)
    }

    /// What `reset` leaves behind: every filter at rest, every buffer zeroed
    /// at its old length, and everything else exactly as it was.
    pub open spec fn reset_post(pre: Reverb, post: Reverb) -> bool {
        &&& Self::filter_at_rest(post.pre_low_filter)
        &&& Self::filter_at_rest(post.pre_high_filter)
        &&& Self::filter_at_rest(post.low_shelf_filter0)
        &&& Self::filter_at_rest(post.low_shelf_filter1)
        &&& Self::filter_at_rest(post.low_shelf_filter2)
        &&& Self::filter_at_rest(post.low_shelf_filter3)
        &&& Self::filter_at_rest(post.high_shelf_filter0)
        &&& Self::filter_at_rest(post.high_shelf_filter1)
        &&& Self::filter_at_rest(post.high_shelf_filter2)
        &&& Self::filter_at_rest(post.high_shelf_filter3)
        &&& post.feedback_memories@.len() == pre.feedback_memories@.len()
        &&& forall|k: int|
            0 <= k < post.feedback_memories@.len() ==> (
            #[trigger] post.feedback_memories@[k])@.len() == pre.feedback_memories@[k]@.len()
        &&& forall|k: int, i: int|
            0 <= k < post.feedback_memories@.len() && 0 <= i
                < post.feedback_memories@[k]@.len() ==> (#[trigger] post.feedback_memories@[k]@[i])
                == 0
        &&& post.allpass_memories@.len() == pre.allpass_memories@.len()
        &&& forall|k: int|
            0 <= k < post.allpass_memories@.len() ==> (#[trigger] post.allpass_memories@[k])@.len()
                == pre.allpass_memories@[k]@.len()
        &&& forall|k: int, i: int|
            0 <= k < post.allpass_memories@.len() && 0 <= i < post.allpass_memories@[k]@.len()
                ==> (#[trigger] post.allpass_memories@[k]@[i]) == 0
        &&& post.stereo_memory.is_cleared()
        &&& post.stereo_memory.size == pre.stereo_memory.size
        &&& post.stereo_memory.offset == pre.stereo_memory.offset
        &&& post.stereo_memory.left@.len() == pre.stereo_memory.left@.len()
        &&& post.stereo_memory.right@.len() == pre.stereo_memory.right@.len()
        &&& post == Reverb {
            stereo_memory: post.stereo_memory,
            allpass_memories: post.allpass_memories,
            feedback_memories: post.feedback_memories,
            pre_low_filter: post.pre_low_filter,
            pre_high_filter: post.pre_high_filter,
            low_shelf_filter0: post.low_shelf_filter0,
            low_shelf_filter1: post.low_shelf_filter1,
            low_shelf_filter2: post.low_shelf_filter2,
            low_shelf_filter3: post.low_shelf_filter3,
            high_shelf_filter0: post.high_shelf_filter0,
            high_shelf_filter1: post.high_shelf_filter1,
            high_shelf_filter2: post.high_shelf_filter2,
            high_shelf_filter3: post.high_shelf_filter3,
            ..pre
        }
    }

    /// What `init` at sample rate `sr` leaves behind: buffers sized by the
    /// buffer scale and zeroed, and every other field at its starting value.
    pub open spec fn init_post(sr: int, s: Reverb) -> bool {
        let scale = buffer_scale_spec(sr);
        &&& s.did_init == true
        &&& s.sample_rate == sr * FX_ONE
        &&& s.sample_rate_ratio == fx_div_spec(sr * FX_ONE, FX_BASE_SAMPLE_RATE as int)
        &&& s.buffer_scale == scale
        &&& s.max_feedback_size == scale * 32768
        &&& s.allpass_quarter == scale * 1024
        &&& s.allpass_size == scale * 4096
        &&& s.allpass_offsets0 == allpass_offset_spec(0, scale)
        &&& s.allpass_offsets1 == allpass_offset_spec(1, scale)
        &&& s.allpass_offsets2 == allpass_offset_spec(2, scale)
        &&& s.allpass_offsets3 == allpass_offset_spec(3, scale)
        &&& s.write_index == 0
        &&& s.feedback_memories@.len() == 16
        &&& forall|k: int|
            0 <= k < 16 ==> (#[trigger] s.feedback_memories@[k])@.len() == scale * 32768 + 4
        &&& forall|k: int, i: int|
            0 <= k < 16 && 0 <= i < s.feedback_memories@[k]@.len() ==> (
            #[trigger] s.feedback_memories@[k]@[i]) == 0
        &&& s.allpass_memories@.len() == 4
        &&& forall|k: int|
            0 <= k < 4 ==> (#[trigger] s.allpass_memories@[k])@.len() == scale * 4096
        &&& forall|k: int, i: int|
            0 <= k < 4 && 0 <= i < s.allpass_memories@[k]@.len() ==> (
            #[trigger] s.allpass_memories@[k]@[i]) == 0
        &&& s.stereo_memory.is_cleared()
        &&& s.stereo_memory.offset == 0
        &&& is_pow2(s.stereo_memory.size as int)
        &&& 262144 <= s.stereo_memory.size < 524288
        &&& s.stereo_memory.left@.len() == 2 * s.stereo_memory.size
        &&& s.stereo_memory.right@.len() == 2 * s.stereo_memory.size
        &&& s.decays0 == fx4_splat_spec(0)
        &&& s.decays1 == fx4_splat_spec(0)
        &&& s.decays2 == fx4_splat_spec(0)
        &&& s.decays3 == fx4_splat_spec(0)
        &&& Self::filter_at_rest(s.pre_low_filter)
        &&& Self::filter_at_rest(s.pre_high_filter)
        &&& Self::filter_at_rest(s.low_shelf_filter0)
        &&& Self::filter_at_rest(s.low_shelf_filter1)
        &&& Self::filter_at_rest(s.low_shelf_filter2)
        &&& Self::filter_at_rest(s.low_shelf_filter3)
        &&& Self::filter_at_rest(s.high_shelf_filter0)
        &&& Self::filter_at_rest(s.high_shelf_filter1)
        &&& Self::filter_at_rest(s.high_shelf_filter2)
        &&& Self::filter_at_rest(s.high_shelf_filter3)
        &&& s.pre_low_coeff == fx4_splat_spec(FX_DEFAULT_COEFF)
        &&& s.pre_high_coeff == fx4_splat_spec(FX_DEFAULT_COEFF)
        &&& s.low_shelf_coeff == fx4_splat_spec(FX_DEFAULT_COEFF)
        &&& s.high_shelf_coeff == fx4_splat_spec(FX_DEFAULT_COEFF)
        &&& s.low_shelf_amp == fx4_splat_spec(0)
        &&& s.high_shelf_amp == fx4_splat_spec(0)
        &&& s.chorus_phase == 0
        &&& s.chorus_amount == fx4_splat_spec(0)
        &&& s.sample_delay == fx4_splat_spec(FX_MIN_DELAY)
        &&& s.sample_delay_increment == fx4_splat_spec(0)
        &&& s.dry_amp == fx4_splat_spec(0)
        &&& s.wet_amp == fx4_splat_spec(0)
        &&& s.width_coeff == FX_HALF
        &&& s.delays0 == fx4_splat_spec(0)
        &&& s.delays1 == fx4_splat_spec(0)
        &&& s.delays2 == fx4_splat_spec(0)
        &&& s.delays3 == fx4_splat_spec(0)
        &&& s.prev_pre_low_cut_hz == 0
        &&& s.prev_pre_high_cut_hz == 0
        &&& s.prev_low_shelf_cut_hz == 0
        &&& s.prev_high_shelf_cut_hz == 0
        &&& s.prev_size_val == -FX_ONE
        &&& s.prev_decay_val == -FX_ONE
        &&& s.prev_chorus_freq_hz == -FX_ONE
        &&& s.prev_mix_val == -FX_ONE
        &&& s.prev_low_shelf_gain_db == FX_UNSET_GAIN
        &&& s.prev_high_shelf_gain_db == FX_UNSET_GAIN
        &&& s.size_mult == 0
        &&& s.chorus_increment_real == 0
        &&& s.chorus_increment_imaginary == 0
    }

    /// How two engine states agree on everything observable: every scalar
    /// field equal, and every buffer equal sample for sample.
    pub open spec fn state_eq(a: Reverb, b: Reverb) -> bool {
        &&& a.feedback_memories@.len() == b.feedback_memories@.len()
        &&& forall|k: int|
            0 <= k < a.feedback_memories@.len() ==> (#[trigger] a.feedback_memories@[k])@
                == b.feedback_memories@[k]@
        &&& a.allpass_memories@.len() == b.allpass_memories@.len()
        &&& forall|k: int|
            0 <= k < a.allpass_memories@.len() ==> (#[trigger] a.allpass_memories@[k])@
                == b.allpass_memories@[k]@
        &&& a.stereo_memory.left@ == b.stereo_memory.left@
        &&& a.stereo_memory.right@ == b.stereo_memory.right@
        &&& a.stereo_memory.size == b.stereo_memory.size
        &&& a.stereo_memory.offset == b.stereo_memory.offset
        &&& a == Reverb {
            stereo_memory: a.stereo_memory,
            allpass_memories: a.allpass_memories,
            feedback_memories: a.feedback_memories,
            ..b
        }
    }
}

/// The buffer scale: the smallest power of two whose multiple of the base
/// rate reaches the given sample rate.
fn get_buffer_scale(sample_rate_hz: u32) -> (r: usize)
    requires
        44100 <= sample_rate_hz <= 192000,
    ensures
        r == buffer_scale_spec(sample_rate_hz as int),
        r == 1 || r == 2 || r == 4 || r == 8,
{
    if sample_rate_hz <= 44100 {
        1
    } else if sample_rate_hz <= 88200 {
        2
    } else if sample_rate_hz <= 176400 {
        4
    } else {
        8
    }
}

/// The per-lane feedback delay constants of a container.
fn feedback_delay(c: usize) -> (r: Fix4)
    requires
        c < 4,
    ensures
        r == feedback_delay_spec(c as int),
{
    if c == 0 {
        Fix4 { l0: 7081243443, l1: 9729107558, l2: 8078753792, l3: 11878793216 }
    } else if c == 1 {
        Fix4 { l0: 10172361605, l1: 5780275200, l2: 8892396339, l3: 5912553062 }
    } else if c == 2 {
        Fix4 { l0: 3272322580, l1: 3596091392, l2: 3802524549, l3: 8088211948 }
    } else {
        Fix4 { l0: 4741178327, l1: 6835635487, l2: 5521339843, l3: 5903745024 }
    }
}

/// The allpass read offsets of a container at a buffer scale.
fn allpass_offsets_for(c: usize, scale: usize) -> (r: Fix4)
    requires
        c < 4,
        1 <= scale <= 8,
    ensures
        r == allpass_offset_spec(c as int, scale as int),
        0 < r.l0 < scale * 4096,
        0 < r.l1 < scale * 4096,
        0 < r.l2 < scale * 4096,
        0 < r.l3 < scale * 4096,
{
    let d: Fix4 = if c == 0 {
        Fix4 { l0: 1001, l1: 799, l2: 933, l3: 876 }
    } else if c == 1 {
        Fix4 { l0: 895, l1: 807, l2: 907, l3: 853 }
    } else if c == 2 {
        Fix4 { l0: 957, l1: 1019, l2: 711, l3: 567 }
    } else {
        Fix4 { l0: 833, l1: 779, l2: 663, l3: 997 }
    };
    let s = scale as i64;
    let v = Fix4 {
        l0: d.l0 * s * 4 + 4,
        l1: d.l1 * s * 4 + 3,
        l2: d.l2 * s * 4 + 2,
        l3: d.l3 * s * 4 + 1,
    };
    swap_stereo_x4(v)
}

/// The uninitialized engine around given buffers: every scalar field at its
/// starting value.
pub open spec fn default_fields_spec(
    stereo: StereoMemory,
    ap: Vec<Vec<i64>>,
    fb: Vec<Vec<i64>>,
) -> Reverb {
    Reverb {
                stereo_memory: stereo,
                allpass_memories: ap,
                feedback_memories: fb,
                decays0: fx4_splat_spec(0),
                decays1: fx4_splat_spec(0),
                decays2: fx4_splat_spec(0),
                decays3: fx4_splat_spec(0),
                pre_low_filter: OnePoleFilter {
                    current_state: fx4_splat_spec(0),
                    filter_state: fx4_splat_spec(0),
                },
                pre_high_filter: OnePoleFilter {
                    current_state: fx4_splat_spec(0),
                    filter_state: fx4_splat_spec(0),
                },
                low_shelf_filter0: OnePoleFilter {
                    current_state: fx4_splat_spec(0),
                    filter_state: fx4_splat_spec(0),
                },
                low_shelf_filter1: OnePoleFilter {
                    current_state: fx4_splat_spec(0),
                    filter_state: fx4_splat_spec(0),
                },
                low_shelf_filter2: OnePoleFilter {
                    current_state: fx4_splat_spec(0),
                    filter_state: fx4_splat_spec(0),
                },
                low_shelf_filter3: OnePoleFilter {
                    current_state: fx4_splat_spec(0),
                    filter_state: fx4_splat_spec(0),
                },
                high_shelf_filter0: OnePoleFilter {
                    current_state: fx4_splat_spec(0),
                    filter_state: fx4_splat_spec(0),
                },
                high_shelf_filter1: OnePoleFilter {
                    current_state: fx4_splat_spec(0),
                    filter_state: fx4_splat_spec(0),
                },
                high_shelf_filter2: OnePoleFilter {
                    current_state: fx4_splat_spec(0),
                    filter_state: fx4_splat_spec(0),
                },
                high_shelf_filter3: OnePoleFilter {
                    current_state: fx4_splat_spec(0),
                    filter_state: fx4_splat_spec(0),
                },
                pre_low_coeff: fx4_splat_spec(FX_DEFAULT_COEFF),
                pre_high_coeff: fx4_splat_spec(FX_DEFAULT_COEFF),
                low_shelf_coeff: fx4_splat_spec(FX_DEFAULT_COEFF),
                high_shelf_coeff: fx4_splat_spec(FX_DEFAULT_COEFF),
                low_shelf_amp: fx4_splat_spec(0),
                high_shelf_amp: fx4_splat_spec(0),
                chorus_phase: 0,
                chorus_amount: fx4_splat_spec(0),
                sample_delay: fx4_splat_spec(FX_MIN_DELAY),
                sample_delay_increment: fx4_splat_spec(0),
                dry_amp: fx4_splat_spec(0),
                wet_amp: fx4_splat_spec(0),
                width_coeff: FX_HALF,
                write_index: 0,
                max_feedback_size: 0,
                allpass_quarter: 0,
                allpass_size: 0,
                allpass_offsets0: fx4_splat_spec(0),
                allpass_offsets1: fx4_splat_spec(0),
                allpass_offsets2: fx4_splat_spec(0),
                allpass_offsets3: fx4_splat_spec(0),
                delays0: fx4_splat_spec(0),
                delays1: fx4_splat_spec(0),
                delays2: fx4_splat_spec(0),
                delays3: fx4_splat_spec(0),
                prev_pre_low_cut_hz: 0,
                prev_pre_high_cut_hz: 0,
                prev_low_shelf_cut_hz: 0,
                prev_high_shelf_cut_hz: 0,
                prev_size_val: (-FX_ONE) as i64,
                prev_decay_val: (-FX_ONE) as i64,
                prev_chorus_freq_hz: (-FX_ONE) as i64,
                prev_mix_val: (-FX_ONE) as i64,
                prev_low_shelf_gain_db: FX_UNSET_GAIN,
                prev_high_shelf_gain_db: FX_UNSET_GAIN,
                size_mult: 0,
                chorus_increment_real: 0,
                chorus_increment_imaginary: 0,
                sample_rate: 0,
                sample_rate_ratio: 0,
                buffer_scale: 0,
                did_init: false,
            }
}

impl Default for Reverb {
    /// An engine in its uninitialized form: the stereo ring is allocated,
    /// the network buffers are not, and `did_init` is false.
    fn default() -> (r: Reverb)
        ensures
            r.stereo_memory.wf(),
            r.stereo_memory.is_cleared(),
            r.stereo_memory.offset == 0,
            262144 <= r.stereo_memory.size < 524288,
            r.feedback_memories@.len() == 0,
            r.allpass_memories@.len() == 0,
            !r.did_init,
            r == default_fields_spec(r.stereo_memory, r.allpass_memories, r.feedback_memories),
    {
        Reverb {
            stereo_memory: StereoMemory::new(262144),
            allpass_memories: Vec::new(),
            feedback_memories: Vec::new(),
            decays0: Fix4::zero(),
            decays1: Fix4::zero(),
            decays2: Fix4::zero(),
            decays3: Fix4::zero(),
            pre_low_filter: OnePoleFilter::new(),
            pre_high_filter: OnePoleFilter::new(),
            low_shelf_filter0: OnePoleFilter::new(),
            low_shelf_filter1: OnePoleFilter::new(),
            low_shelf_filter2: OnePoleFilter::new(),
            low_shelf_filter3: OnePoleFilter::new(),
            high_shelf_filter0: OnePoleFilter::new(),
            high_shelf_filter1: OnePoleFilter::new(),
            high_shelf_filter2: OnePoleFilter::new(),
            high_shelf_filter3: OnePoleFilter::new(),
            pre_low_coeff: Fix4::splat(FX_DEFAULT_COEFF),
            pre_high_coeff: Fix4::splat(FX_DEFAULT_COEFF),
            low_shelf_coeff: Fix4::splat(FX_DEFAULT_COEFF),
            high_shelf_coeff: Fix4::splat(FX_DEFAULT_COEFF),
            low_shelf_amp: Fix4::zero(),
            high_shelf_amp: Fix4::zero(),
            chorus_phase: 0,
            chorus_amount: Fix4::zero(),
            sample_delay: Fix4::splat(FX_MIN_DELAY),
            sample_delay_increment: Fix4::zero(),
            dry_amp: Fix4::zero(),
            wet_amp: Fix4::zero(),
            width_coeff: FX_HALF,
            write_index: 0,
            max_feedback_size: 0,
            allpass_quarter: 0,
            allpass_size: 0,
            allpass_offsets0: Fix4::zero(),
            allpass_offsets1: Fix4::zero(),
            allpass_offsets2: Fix4::zero(),
            allpass_offsets3: Fix4::zero(),
            delays0: Fix4::zero(),
            delays1: Fix4::zero(),
            delays2: Fix4::zero(),
            delays3: Fix4::zero(),
            prev_pre_low_cut_hz: 0,
            prev_pre_high_cut_hz: 0,
            prev_low_shelf_cut_hz: 0,
            prev_high_shelf_cut_hz: 0,
            prev_size_val: -FX_ONE,
            prev_decay_val: -FX_ONE,
            prev_chorus_freq_hz: -FX_ONE,
            prev_mix_val: -FX_ONE,
            prev_low_shelf_gain_db: FX_UNSET_GAIN,
            prev_high_shelf_gain_db: FX_UNSET_GAIN,
            size_mult: 0,
            chorus_increment_real: 0,
            chorus_increment_imaginary: 0,
            sample_rate: 0,
            sample_rate_ratio: 0,
            buffer_scale: 0,
            did_init: false,
        }
    }
}

impl Reverb {
    /// Size and clear every buffer for the given sample rate and reset all
    /// state; must be called at least once before `process`, and may be
    /// called again to change the sample rate.
    pub fn init(&mut self, sample_rate_hz: u32)
        requires
            44100 <= sample_rate_hz <= 192000,
        ensures
            final(self).wf(),
            final(self).did_init,
            Self::init_post(sample_rate_hz as int, *final(self)),
            is_pow2(final(self).max_feedback_size as int),
            is_pow2(final(self).allpass_size as int),
            is_pow2(final(self).stereo_memory.size as int),
    {
        *self = Reverb::default();
        self.sample_rate = (sample_rate_hz as i64) * FX_ONE;
        self.sample_rate_ratio = fx_div(self.sample_rate, FX_BASE_SAMPLE_RATE);
        let scale = get_buffer_scale(sample_rate_hz);
        self.buffer_scale = scale;
        self.max_feedback_size = scale * 32768;
        self.allpass_quarter = scale * 1024;
        self.allpass_size = scale * 4096;
        self.allpass_offsets0 = allpass_offsets_for(0, scale);
        self.allpass_offsets1 = allpass_offsets_for(1, scale);
        self.allpass_offsets2 = allpass_offsets_for(2, scale);
        self.allpass_offsets3 = allpass_offsets_for(3, scale);
        let fb_len = self.max_feedback_size + 4;
        let mut fbs: Vec<Vec<i64>> = Vec::new();
        while fbs.len() < 16
            invariant
                fbs@.len() <= 16,
                forall|k: int| 0 <= k < fbs@.len() ==> (#[trigger] fbs@[k])@.len() == fb_len,
                forall|k: int, i: int|
                    0 <= k < fbs@.len() && 0 <= i < fbs@[k]@.len() ==> (#[trigger] fbs@[k]@[i])
                        == 0,
            decreases 16 - fbs@.len(),
        {
            fbs.push(zeros(fb_len));
        }
        self.feedback_memories = fbs;
        let mut aps: Vec<Vec<i64>> = Vec::new();
        let ap_len = self.allpass_size;
        while aps.len() < 4
            invariant
                aps@.len() <= 4,
                forall|k: int| 0 <= k < aps@.len() ==> (#[trigger] aps@[k])@.len() == ap_len,
                forall|k: int, i: int|
                    0 <= k < aps@.len() && 0 <= i < aps@[k]@.len() ==> (#[trigger] aps@[k]@[i])
                        == 0,
            decreases 4 - aps@.len(),
        {
            aps.push(zeros(ap_len));
        }
        self.allpass_memories = aps;
        self.did_init = true;
        proof {
            lemma_scaled_pow2(scale as int);
        }
    }

    /// Zero all filter, delay-line and ring-buffer state without freeing
    /// buffers; cached derived parameters are kept.
    pub fn reset(&mut self)
        requires
            old(self).stereo_memory.wf(),
        ensures
            Self::reset_post(*old(self), *final(self)),
            old(self).wf() ==> final(self).wf(),
    {
        let nfb = self.feedback_memories.len();
        let mut k: usize = 0;
        while k < nfb
            invariant
                nfb == self.feedback_memories@.len(),
                k <= nfb,
                forall|j: int|
                    0 <= j < nfb ==> (#[trigger] self.feedback_memories@[j])@.len() == old(
                    self).feedback_memories@[j]@.len(),
                forall|j: int, i: int|
                    0 <= j < k && 0 <= i < self.feedback_memories@[j]@.len() ==> (
                    #[trigger] self.feedback_memories@[j]@[i]) == 0,
                *self == (Reverb { feedback_memories: self.feedback_memories, ..*old(self) }),
            decreases nfb - k,
        {
            zero_fill(&mut self.feedback_memories[k]);
            k = k + 1;
        }
        let nap = self.allpass_memories.len();
        let mut k2: usize = 0;
        while k2 < nap
            invariant
                nap == self.allpass_memories@.len(),
                k2 <= nap,
                forall|j: int|
                    0 <= j < nap ==> (#[trigger] self.allpass_memories@[j])@.len() == old(
                    self).allpass_memories@[j]@.len(),
                forall|j: int, i: int|
                    0 <= j < k2 && 0 <= i < self.allpass_memories@[j]@.len() ==> (
                    #[trigger] self.allpass_memories@[j]@[i]) == 0,
                *self == (Reverb {
                    feedback_memories: self.feedback_memories,
                    allpass_memories: self.allpass_memories,
                    ..*old(self)
                }),
                self.feedback_memories@.len() == old(self).feedback_memories@.len(),
                forall|j: int|
                    0 <= j < self.feedback_memories@.len() ==> (
                    #[trigger] self.feedback_memories@[j])@.len() == old(
                    self).feedback_memories@[j]@.len(),
                forall|j: int, i: int|
                    0 <= j < self.feedback_memories@.len() && 0 <= i
                        < self.feedback_memories@[j]@.len() ==> (
                    #[trigger] self.feedback_memories@[j]@[i]) == 0,
            decreases nap - k2,
        {
            zero_fill(&mut self.allpass_memories[k2]);
            k2 = k2 + 1;
        }
        self.pre_low_filter.reset();
        self.pre_high_filter.reset();
        self.low_shelf_filter0.reset();
        self.low_shelf_filter1.reset();
        self.low_shelf_filter2.reset();
        self.low_shelf_filter3.reset();
        self.high_shelf_filter0.reset();
        self.high_shelf_filter1.reset();
        self.high_shelf_filter2.reset();
        self.high_shelf_filter3.reset();
        self.stereo_memory.clear();
    }

    /// An upper bound on the number of samples until the tail of a `decay`
    /// second reverb falls below hearing: `ceil(decay * 2 * sample_rate)`.
    pub fn tail_samples(&self, decay_seconds: i64) -> (r: u32)
        requires
            0 <= self.sample_rate <= FX_MAX_SAMPLE_RATE,
        ensures
            r == Self::tail_samples_spec(decay_seconds as int, self.sample_rate as int),
    {
        if decay_seconds <= 0 {
            return 0;
        }
        let d: u128 = decay_seconds as u128;
        let sr: u128 = self.sample_rate as u128;
        proof {
            assert(d * 2 * sr <= 0x7fffffffffffffffu128 * 2 * 201326592000u128) by (nonlinear_arith)
                requires
                    d <= 0x7fffffffffffffffu128,
                    sr <= 201326592000u128,
            ;
        }
        let num: u128 = d * 2 * sr;
        let denom: u128 = 1099511627776;
        let t = (num + (denom - 1)) / denom;
        if t > u32::MAX as u128 {
            u32::MAX
        } else {
            t as u32
        }
    }

    /// The tail estimate: the decay time in seconds, doubled, in samples,
    /// rounded up, and capped at the largest `u32`.
    pub open spec fn tail_samples_spec(decay: int, sample_rate: int) -> int {
        if decay <= 0 {
            0
        } else {
            let t = (decay * 2 * sample_rate + (FX_ONE * FX_ONE - 1)) / (FX_ONE * FX_ONE);
            if t > u32::MAX {
                u32::MAX as int
            } else {
                t
            }
        }
    }
}

/// The Euclidean remainder of a possibly negative position in a ring.
fn wrap_index(d: i64, size: usize) -> (r: usize)
    requires
        1 <= size <= 0x40000000,
    ensures
        r == (d as int) % (size as int),
        r < size,
{
    proof {
        vstd::arithmetic::div_mod::lemma_mod_bound(d as int, size as int);
    }
    if d >= 0 {
        ((d as u64) % (size as u64)) as usize
    } else {
        let n: u128 = (-(d as i128)) as u128;
        let m = (n % (size as u128)) as usize;
        proof {
            let dd = d as int;
            let sz = size as int;
            let q = (-dd) / sz;
            let mm = (-dd) % sz;
            vstd::arithmetic::div_mod::lemma_fundamental_div_mod(-dd, sz);
            vstd::arithmetic::div_mod::lemma_mod_bound(-dd, sz);
            if m == 0 {
                assert(dd == (-q) * sz + 0) by (nonlinear_arith)
                    requires
                        -dd == sz * q + mm,
                        mm == 0,
                ;
                vstd::arithmetic::div_mod::lemma_fundamental_div_mod_converse(dd, sz, -q, 0);
            } else {
                assert(dd == (-q - 1) * sz + (sz - mm)) by (nonlinear_arith)
                    requires
                        -dd == sz * q + mm,
                ;
                vstd::arithmetic::div_mod::lemma_fundamental_div_mod_converse(
                    dd,
                    sz,
                    -q - 1,
                    sz - mm,
                );
            }
        }
        if m == 0 {
            0
        } else {
            size - m
        }
    }
}

/// A multiple of four wrapped in a ring whose length is a multiple of four
/// stays a multiple of four.
proof fn lemma_allpass_base(wi: int, q: int)
    requires
        0 <= wi,
        1 <= q,
    ensures
        (4 * wi) % (4 * q) == 4 * (wi % q),
{
    vstd::arithmetic::div_mod::lemma_mod_breakdown(4 * wi, 4, q);
    vstd::arithmetic::div_mod::lemma_mod_multiples_basic(wi, 4);
    assert((4 * wi) % 4 == 0) by (nonlinear_arith);
    assert((4 * wi) / 4 == wi) by (nonlinear_arith);
}

/// The deep view of a bank of buffers: each buffer as its sequence.
pub open spec fn bank_view(s: Seq<Vec<i64>>) -> Seq<Seq<i64>> {
    Seq::new(s.len(), |i: int| s[i]@)
}

/// One lane of the fractional position of a feedback read.
pub open spec fn feedback_frac_bank_spec(wi: int, offset: int) -> int {
    let wo = wi * FX_ONE - offset;
    wo - fx_floor_spec(wo) * FX_ONE
}

/// The interpolated feedback read of container `c` of a bank of sixteen
/// lines at the given offsets: the cubic polynomial kernel of the
/// fractional parts, applied to four consecutive guarded samples of each of
/// the container's four lines.
#[verifier::opaque]
pub open spec fn feedback_read_bank_spec(
    fb: Seq<Seq<i64>>,
    wi: int,
    max: int,
    c: int,
    offset: Fix4,
) -> Fix4 {
    let t = Fix4 {
        l0: feedback_frac_bank_spec(wi, offset.l0 as int) as i64,
        l1: feedback_frac_bank_spec(wi, offset.l1 as int) as i64,
        l2: feedback_frac_bank_spec(wi, offset.l2 as int) as i64,
        l3: feedback_frac_bank_spec(wi, offset.l3 as int) as i64,
    };
    let i0 = fx_floor_spec(wi * FX_ONE - offset.l0) % max;
    let i1 = fx_floor_spec(wi * FX_ONE - offset.l1) % max;
    let i2 = fx_floor_spec(wi * FX_ONE - offset.l2) % max;
    let i3 = fx_floor_spec(wi * FX_ONE - offset.l3) % max;
    let m0 = fb[4 * c];
    let m1 = fb[4 * c + 1];
    let m2 = fb[4 * c + 2];
    let m3 = fb[4 * c + 3];
    let values = Matrix {
        rows: [
            Fix4 { l0: m0[i0 + 1], l1: m0[i0 + 2], l2: m0[i0 + 3], l3: m0[i0 + 4] },
            Fix4 { l0: m1[i1 + 1], l1: m1[i1 + 2], l2: m1[i1 + 3], l3: m1[i1 + 4] },
            Fix4 { l0: m2[i2 + 1], l1: m2[i2 + 2], l2: m2[i2 + 3], l3: m2[i2 + 4] },
            Fix4 { l0: m3[i3 + 1], l1: m3[i3 + 2], l2: m3[i3 + 3], l3: m3[i3 + 4] },
        ],
    };
    crate::matrix::multiply_and_sum_rows_spec(polynomial_kernel_spec(t), transpose_spec(values))
}

/// The allpass read of container `c` of a bank of four interleaved buffers:
/// each lane reads one sample, its offset behind the interleaved write
/// position.
#[verifier::opaque]
pub open spec fn allpass_read_bank_spec(
    ap: Seq<Seq<i64>>,
    wi: int,
    asize: int,
    off: Fix4,
    c: int,
) -> Fix4 {
    let base = (4 * wi) % asize;
    let m = ap[c];
    Fix4 {
        l0: m[(base + asize - off.l0) % asize],
        l1: m[(base + asize - off.l1) % asize],
        l2: m[(base + asize - off.l2) % asize],
        l3: m[(base + asize - off.l3) % asize],
    }
}

/// The interleaved allpass write base: the write index spread over four
/// lanes, wrapped in the allpass ring.
pub open spec fn allpass_base_spec(wi: int, allpass_size: int) -> int {
    (4 * wi) % allpass_size
}

/// A feedback line with its guard refreshed: the head mirrored past the
/// tail, so four-tap reads never wrap.
pub open spec fn guard_refresh_spec(buf: Seq<i64>, n: int) -> Seq<i64> {
    buf.update(0, buf[n]).update(n + 1, buf[1]).update(n + 2, buf[2]).update(n + 3, buf[3])
}

/// The network cross-coupling applied to four rows; exactly
/// [`crate::model::cross_couple_spec`].
fn cross_couple(m: Matrix) -> (r: Matrix)
    ensures
        r == crate::model::cross_couple_spec(m),
{
    proof {
        reveal(crate::model::cross_couple_spec);
    }
    let total = m.sum_rows();
    let other = mul_add_fx(
        Fix4::splat(fx_mul(total.reduce_sum(), FX_INPUT_SCALE)),
        total,
        Fix4::splat(FX_NEG_HALF),
    );
    let mut t = m;
    t.transpose();
    let adjacent = t.sum_rows().mul4(Fix4::splat(FX_NEG_HALF));
    Matrix {
        rows: [
            other.add4(m.rows[0]).add4(Fix4::splat(adjacent.l0)),
            other.add4(m.rows[1]).add4(Fix4::splat(adjacent.l1)),
            other.add4(m.rows[2]).add4(Fix4::splat(adjacent.l2)),
            other.add4(m.rows[3]).add4(Fix4::splat(adjacent.l3)),
        ],
    }
}

impl Reverb {
    /// The allpass read offsets of a container, by index.
    pub open spec fn allpass_offsets_of(self, c: int) -> Fix4 {
        if c == 0 {
            self.allpass_offsets0
        } else if c == 1 {
            self.allpass_offsets1
        } else if c == 2 {
            self.allpass_offsets2
        } else {
            self.allpass_offsets3
        }
    }

    /// The feedback delays of a container, by index.
    pub open spec fn delays_of(self, c: int) -> Fix4 {
        if c == 0 {
            self.delays0
        } else if c == 1 {
            self.delays1
        } else if c == 2 {
            self.delays2
        } else {
            self.delays3
        }
    }

    /// One lane of the fractional position of a feedback read.
    pub open spec fn feedback_frac_spec(self, offset: int) -> int {
        feedback_frac_bank_spec(self.write_index as int, offset)
    }

    /// The interpolated feedback read of container `c` at the given offsets:
    /// the cubic polynomial kernel of the fractional parts, applied to four
    /// consecutive guarded samples of each of the container's four lines.
    pub open spec fn read_feedback_spec(self, c: int, offset: Fix4) -> Fix4 {
        feedback_read_bank_spec(
            bank_view(self.feedback_memories@),
            self.write_index as int,
            self.max_feedback_size as int,
            c,
            offset,
        )
    }

    /// One lane of an interpolated feedback read.
    fn read_feedback_lane(&self, k: usize, offset: i64) -> (r: (i64, Fix4))
        requires
            self.wf(),
            k < 16,
            -FX_SAT <= offset <= FX_SAT,
        ensures
            r.0 == self.feedback_frac_spec(offset as int),
            0 <= r.0 < FX_ONE,
            ({
                let idx = fx_floor_spec(self.write_index * FX_ONE - offset) % (
                self.max_feedback_size as int);
                let m = self.feedback_memories@[k as int]@;
                r.1 == (Fix4 { l0: m[idx + 1], l1: m[idx + 2], l2: m[idx + 3], l3: m[idx + 4] })
            }),
    {
        let wo = (self.write_index as i64) * FX_ONE - offset;
        let fo = fx_floor(wo);
        proof {
            lemma_fx_floor_bounds(wo as int);
        }
        let t = wo - fo * FX_ONE;
        let idx = wrap_index(fo, self.max_feedback_size);
        let m = &self.feedback_memories[k];
        (t, Fix4 { l0: m[idx + 1], l1: m[idx + 2], l2: m[idx + 3], l3: m[idx + 4] })
    }

    /// The interpolated read of all four lines of container `c`.
    fn read_feedback_interpolated(&self, c: usize, offset: Fix4) -> (r: Fix4)
        requires
            self.wf(),
            c < 4,
            -FX_SAT <= offset.l0 <= FX_SAT,
            -FX_SAT <= offset.l1 <= FX_SAT,
            -FX_SAT <= offset.l2 <= FX_SAT,
            -FX_SAT <= offset.l3 <= FX_SAT,
        ensures
            r == self.read_feedback_spec(c as int, offset),
    {
        proof {
            reveal(feedback_read_bank_spec);
        }
        let (t0, row0) = self.read_feedback_lane(4 * c, offset.l0);
        let (t1, row1) = self.read_feedback_lane(4 * c + 1, offset.l1);
        let (t2, row2) = self.read_feedback_lane(4 * c + 2, offset.l2);
        let (t3, row3) = self.read_feedback_lane(4 * c + 3, offset.l3);
        let t = Fix4 { l0: t0, l1: t1, l2: t2, l3: t3 };
        let kernel = Matrix::polynomial_interpolation_matrix(t);
        let mut values = Matrix { rows: [row0, row1, row2, row3] };
        values.transpose();
        kernel.multiply_and_sum_rows(&values)
    }

    /// The allpass read of container `c`: each lane reads one sample, its
    /// offset behind the interleaved write position.
    pub open spec fn read_allpass_spec(self, c: int) -> Fix4 {
        allpass_read_bank_spec(
            bank_view(self.allpass_memories@),
            self.write_index as int,
            self.allpass_size as int,
            self.allpass_offsets_of(c),
            c,
        )
    }

    /// Read the four allpass lanes of container `c`.
    fn read_allpass(&self, c: usize) -> (r: Fix4)
        requires
            self.wf(),
            c < 4,
        ensures
            r == self.read_allpass_spec(c as int),
    {
        proof {
            reveal(allpass_read_bank_spec);
        }
        let off = if c == 0 {
            self.allpass_offsets0
        } else if c == 1 {
            self.allpass_offsets1
        } else if c == 2 {
            self.allpass_offsets2
        } else {
            self.allpass_offsets3
        };
        let base = (4 * self.write_index) % self.allpass_size;
        let m = &self.allpass_memories[c];
        let sz = self.allpass_size;
        Fix4 {
            l0: m[(base + sz - (off.l0 as usize)) % sz],
            l1: m[(base + sz - (off.l1 as usize)) % sz],
            l2: m[(base + sz - (off.l2 as usize)) % sz],
            l3: m[(base + sz - (off.l3 as usize)) % sz],
        }
    }

    /// Store the allpass delay inputs of container `c` at the interleaved
    /// write position.
    fn store_allpass(&mut self, c: usize, vals: Fix4)
        requires
            old(self).wf(),
            c < 4,
        ensures
            final(self).wf(),
            *final(self) == (Reverb {
                allpass_memories: final(self).allpass_memories,
                ..*old(self)
            }),
            final(self).allpass_memories@.len() == 4,
            forall|j: int|
                0 <= j < 4 ==> (#[trigger] final(self).allpass_memories@[j])@.len() == old(
                self).allpass_memories@[j]@.len(),
            forall|j: int|
                0 <= j < 4 && j != c ==> (#[trigger] final(self).allpass_memories@[j]) == old(
                self).allpass_memories@[j],
            final(self).allpass_memories@[c as int]@ == ({
                let base = allpass_base_spec(
                    old(self).write_index as int,
                    old(self).allpass_size as int,
                );
                old(self).allpass_memories@[c as int]@.update(base, vals.l0).update(
                    base + 1,
                    vals.l1,
                ).update(base + 2, vals.l2).update(base + 3, vals.l3)
            }),
    {
        proof {
            lemma_allpass_base(self.write_index as int, self.allpass_quarter as int);
        }
        let base = (4 * self.write_index) % self.allpass_size;
        let m = &mut self.allpass_memories[c];
        m[base] = vals.l0;
        m[base + 1] = vals.l1;
        m[base + 2] = vals.l2;
        m[base + 3] = vals.l3;
    }

    /// Store the decayed container outputs of container `c` one sample ahead
    /// of the write position (the look-ahead slot of the guarded kernel).
    fn store_feedback(&mut self, c: usize, vals: Fix4)
        requires
            old(self).wf(),
            c < 4,
        ensures
            final(self).wf(),
            *final(self) == (Reverb {
                feedback_memories: final(self).feedback_memories,
                ..*old(self)
            }),
            final(self).feedback_memories@.len() == 16,
            forall|j: int|
                0 <= j < 16 ==> (#[trigger] final(self).feedback_memories@[j])@.len() == old(
                self).feedback_memories@[j]@.len(),
            forall|j: int|
                0 <= j < 16 && !(4 * c <= j < 4 * c + 4) ==> (
                #[trigger] final(self).feedback_memories@[j]) == old(self).feedback_memories@[j],
            final(self).feedback_memories@[4 * c as int]@ == old(self).feedback_memories@[4
                * c as int]@.update(old(self).write_index + 1, vals.l0),
            final(self).feedback_memories@[4 * c as int + 1]@ == old(
                self,
            ).feedback_memories@[4 * c as int + 1]@.update(old(self).write_index + 1, vals.l1),
            final(self).feedback_memories@[4 * c as int + 2]@ == old(
                self,
            ).feedback_memories@[4 * c as int + 2]@.update(old(self).write_index + 1, vals.l2),
            final(self).feedback_memories@[4 * c as int + 3]@ == old(
                self,
            ).feedback_memories@[4 * c as int + 3]@.update(old(self).write_index + 1, vals.l3),
    {
        let pos = self.write_index + 1;
        let m0 = &mut self.feedback_memories[4 * c];
        m0[pos] = vals.l0;
        let m1 = &mut self.feedback_memories[4 * c + 1];
        m1[pos] = vals.l1;
        let m2 = &mut self.feedback_memories[4 * c + 2];
        m2[pos] = vals.l2;
        let m3 = &mut self.feedback_memories[4 * c + 3];
        m3[pos] = vals.l3;
    }

    /// Refresh the guard samples of every feedback line: the head mirrored
    /// past the tail, so four-tap reads never wrap.
    fn refresh_guards(&mut self)
        requires
            old(self).wf(),
        ensures
            final(self).wf(),
            *final(self) == (Reverb {
                feedback_memories: final(self).feedback_memories,
                ..*old(self)
            }),
            final(self).feedback_memories@.len() == 16,
            forall|j: int|
                0 <= j < 16 ==> (#[trigger] final(self).feedback_memories@[j])@.len() == old(
                self).feedback_memories@[j]@.len(),
            forall|j: int|
                0 <= j < 16 ==> (#[trigger] final(self).feedback_memories@[j])@
                    == guard_refresh_spec(
                    old(self).feedback_memories@[j]@,
                    old(self).max_feedback_size as int,
                ),
    {
        let n = self.max_feedback_size;
        let mut k: usize = 0;
        while k < 16
            invariant
                old(self).wf(),
                n == old(self).max_feedback_size,
                k <= 16,
                self.feedback_memories@.len() == 16,
                forall|j: int|
                    0 <= j < 16 ==> (#[trigger] self.feedback_memories@[j])@.len() == old(
                    self).feedback_memories@[j]@.len(),
                forall|j: int|
                    k <= j < 16 ==> (#[trigger] self.feedback_memories@[j]) == old(
                    self).feedback_memories@[j],
                forall|j: int|
                    0 <= j < k ==> (#[trigger] self.feedback_memories@[j])@ == guard_refresh_spec(
                        old(self).feedback_memories@[j]@,
                        n as int,
                    ),
                *self == (Reverb { feedback_memories: self.feedback_memories, ..*old(self) }),
            decreases 16 - k,
        {
            let m = &mut self.feedback_memories[k];
            let head = m[n];
            m[0] = head;
            let g1 = m[1];
            m[n + 1] = g1;
            let g2 = m[2];
            m[n + 2] = g2;
            let g3 = m[3];
            m[n + 3] = g3;
            k = k + 1;
        }
    }
}

/// The values a block smooths per sample: one register per coefficient,
/// advanced by the block's deltas after each frame.
#[derive(Clone, Copy)]
pub struct CurState {
    pub pre_low_coeff: Fix4,
    pub pre_high_coeff: Fix4,
    pub low_shelf_coeff: Fix4,
    pub high_shelf_coeff: Fix4,
    pub dry_amp: Fix4,
    pub wet_amp: Fix4,
    pub low_shelf_amp: Fix4,
    pub high_shelf_amp: Fix4,
    pub width_coeff: i64,
    pub decays0: Fix4,
    pub decays1: Fix4,
    pub decays2: Fix4,
    pub decays3: Fix4,
    pub chorus_amount: Fix4,
    pub chorus_real: Fix4,
    pub chorus_imag: Fix4,
    pub sample_delay: Fix4,
    pub delay_increment: Fix4,
}

/// The per-sample deltas and rotation a block derives at entry; constant
/// through the block.
#[derive(Clone, Copy)]
pub struct BlockCtx {
    pub delta_pre_low_coeff: Fix4,
    pub delta_pre_high_coeff: Fix4,
    pub delta_low_shelf_coeff: Fix4,
    pub delta_high_shelf_coeff: Fix4,
    pub delta_dry_amp: Fix4,
    pub delta_wet_amp: Fix4,
    pub delta_low_shelf_amp: Fix4,
    pub delta_high_shelf_amp: Fix4,
    pub delta_width_coeff: i64,
    pub delta_decays0: Fix4,
    pub delta_decays1: Fix4,
    pub delta_decays2: Fix4,
    pub delta_decays3: Fix4,
    pub delta_chorus_amount: Fix4,
    pub delta_delay_increment: Fix4,
    pub chorus_increment_real: i64,
    pub chorus_increment_imaginary: i64,
}

impl Reverb {
    /// Run the diffusion network for one stereo frame: the chorused
    /// feedback reads, the allpass exchange with the injected input, the
    /// cross-coupling, the shelf damping and the decayed store, leaving the
    /// 16-lane output accumulator.  Exactly [`crate::model::network_fn`].
    #[verifier::rlimit(100)]
    #[verifier::spinoff_prover]
    fn network_step(&mut self, cur: &mut CurState, ctx: &BlockCtx, l: i64, r: i64) -> (total:
        Fix4)
        requires
            old(self).wf(),
        ensures
            final(self).wf(),
            *final(self) == (Reverb {
                allpass_memories: final(self).allpass_memories,
                feedback_memories: final(self).feedback_memories,
                pre_low_filter: final(self).pre_low_filter,
                pre_high_filter: final(self).pre_high_filter,
                low_shelf_filter0: final(self).low_shelf_filter0,
                low_shelf_filter1: final(self).low_shelf_filter1,
                low_shelf_filter2: final(self).low_shelf_filter2,
                low_shelf_filter3: final(self).low_shelf_filter3,
                high_shelf_filter0: final(self).high_shelf_filter0,
                high_shelf_filter1: final(self).high_shelf_filter1,
                high_shelf_filter2: final(self).high_shelf_filter2,
                high_shelf_filter3: final(self).high_shelf_filter3,
                ..*old(self)
            }),
            ({
                let n = crate::model::network_fn(
                    crate::model::engine_model(*old(self)),
                    *old(cur),
                    *ctx,
                    l,
                    r,
                );
                crate::model::engine_model(*final(self)) == n.0 && *final(cur) == n.1 && total
                    == n.2
            }),
            *final(cur) == (CurState {
                chorus_amount: final(cur).chorus_amount,
                chorus_real: final(cur).chorus_real,
                chorus_imag: final(cur).chorus_imag,
                decays0: final(cur).decays0,
                decays1: final(cur).decays1,
                decays2: final(cur).decays2,
                decays3: final(cur).decays3,
                ..*old(cur)
            }),
    {
        // Advance the chorus: excursion first, then one step of the
        // complex rotation.
        cur.chorus_amount = cur.chorus_amount.add4(ctx.delta_chorus_amount);
        let rot_c = Fix4::splat(ctx.chorus_increment_real);
        let rot_s = Fix4::splat(ctx.chorus_increment_imaginary);
        let new_real = cur.chorus_real.mul4(rot_c).sub4(cur.chorus_imag.mul4(rot_s));
        let new_imag = cur.chorus_imag.mul4(rot_c).add4(cur.chorus_real.mul4(rot_s));
        cur.chorus_real = new_real;
        cur.chorus_imag = new_imag;

        // Chorused feedback read offsets, container by container.
        let drift_real = cur.chorus_real.mul4(cur.chorus_amount);
        let drift_imag = cur.chorus_imag.mul4(cur.chorus_amount);
        let off0 = self.delays0.add4(drift_real);
        let off1 = self.delays1.sub4(drift_real);
        let off2 = self.delays2.add4(drift_imag);
        let off3 = self.delays3.sub4(drift_imag);

        // Interpolated reads from the feedback lines.
        let fb0 = self.read_feedback_interpolated(0, off0);
        let fb1 = self.read_feedback_interpolated(1, off1);
        let fb2 = self.read_feedback_interpolated(2, off2);
        let fb3 = self.read_feedback_interpolated(3, off3);

        // The stereo input, pre-filtered into a band and attenuated.
        let input = Fix4 { l0: l, l1: r, l2: l, l3: r };
        let high_pass = self.pre_high_filter.tick(input, cur.pre_high_coeff);
        let band = self.pre_low_filter.tick(input, cur.pre_low_coeff).sub4(high_pass);
        let scaled_input = band.mul4(Fix4::splat(FX_INPUT_SCALE));

        // Allpass stage: read, form the delay inputs, store them with the
        // injected input.
        let ap0 = self.read_allpass(0);
        let ap1 = self.read_allpass(1);
        let ap2 = self.read_allpass(2);
        let ap3 = self.read_allpass(3);
        let fb_coeff = Fix4::splat(FX_ALLPASS_FEEDBACK);
        let di0 = fb0.sub4(ap0.mul4(fb_coeff));
        let di1 = fb1.sub4(ap1.mul4(fb_coeff));
        let di2 = fb2.sub4(ap2.mul4(fb_coeff));
        let di3 = fb3.sub4(ap3.mul4(fb_coeff));
        self.store_allpass(0, scaled_input.add4(di0));
        self.store_allpass(1, scaled_input.add4(di1));
        self.store_allpass(2, scaled_input.add4(di2));
        self.store_allpass(3, scaled_input.add4(di3));

        // First allpass outputs and the cross-coupling.
        let allpass_outputs = Matrix {
            rows: [
                ap0.add4(di0.mul4(fb_coeff)),
                ap1.add4(di1.mul4(fb_coeff)),
                ap2.add4(di2.mul4(fb_coeff)),
                ap3.add4(di3.mul4(fb_coeff)),
            ],
        };
        let writes = cross_couple(allpass_outputs);

        // High shelf damping, gain-compensated, then the low shelf.
        let hf0 = self.high_shelf_filter0.tick(writes.rows[0], cur.high_shelf_coeff);
        let hf1 = self.high_shelf_filter1.tick(writes.rows[1], cur.high_shelf_coeff);
        let hf2 = self.high_shelf_filter2.tick(writes.rows[2], cur.high_shelf_coeff);
        let hf3 = self.high_shelf_filter3.tick(writes.rows[3], cur.high_shelf_coeff);
        let w0 = hf0.add4(cur.high_shelf_amp.mul4(writes.rows[0].sub4(hf0)));
        let w1 = hf1.add4(cur.high_shelf_amp.mul4(writes.rows[1].sub4(hf1)));
        let w2 = hf2.add4(cur.high_shelf_amp.mul4(writes.rows[2].sub4(hf2)));
        let w3 = hf3.add4(cur.high_shelf_amp.mul4(writes.rows[3].sub4(hf3)));
        let lf0 = self.low_shelf_filter0.tick(w0, cur.low_shelf_coeff);
        let lf1 = self.low_shelf_filter1.tick(w1, cur.low_shelf_coeff);
        let lf2 = self.low_shelf_filter2.tick(w2, cur.low_shelf_coeff);
        let lf3 = self.low_shelf_filter3.tick(w3, cur.low_shelf_coeff);
        let g0 = w0.sub4(lf0.mul4(cur.low_shelf_amp));
        let g1 = w1.sub4(lf1.mul4(cur.low_shelf_amp));
        let g2 = w2.sub4(lf2.mul4(cur.low_shelf_amp));
        let g3 = w3.sub4(lf3.mul4(cur.low_shelf_amp));

        // Advance the decay registers, then store the decayed feedback.
        cur.decays0 = cur.decays0.add4(ctx.delta_decays0);
        cur.decays1 = cur.decays1.add4(ctx.delta_decays1);
        cur.decays2 = cur.decays2.add4(ctx.delta_decays2);
        cur.decays3 = cur.decays3.add4(ctx.delta_decays3);
        let st0 = cur.decays0.mul4(g0);
        let st1 = cur.decays1.mul4(g1);
        let st2 = cur.decays2.mul4(g2);
        let st3 = cur.decays3.mul4(g3);
        self.store_feedback(0, st0);
        self.store_feedback(1, st1);
        self.store_feedback(2, st2);
        self.store_feedback(3, st3);

        // The second allpass stage over the just-stored values, and the
        // 16-lane output accumulator.
        let ff = cross_couple(Matrix { rows: [st0, st1, st2, st3] });
        let total0 = Matrix { rows: [g0, g1, g2, g3] }.sum_rows();
        let ff_sum = ff.rows[0].mul4(cur.decays0).add4(ff.rows[1].mul4(cur.decays1)).add4(
            ff.rows[2].mul4(cur.decays2),
        ).add4(ff.rows[3].mul4(cur.decays3));
        let total = total0.add4(ff_sum.mul4(Fix4::splat(FX_FEED_FORWARD_SCALE)));
        proof {
            reveal(crate::model::network_fn);
            let n = crate::model::network_fn(
                crate::model::engine_model(*old(self)),
                *old(cur),
                *ctx,
                l,
                r,
            );
            assert forall|k: int| 0 <= k < 16 implies bank_view(
                self.feedback_memories@,
            )[k] == n.0.feedback[k] by {
                assert(self.feedback_memories@[k]@ =~= n.0.feedback[k]);
            }
            assert(bank_view(self.feedback_memories@) =~= n.0.feedback);
            assert forall|k: int| 0 <= k < 4 implies bank_view(
                self.allpass_memories@,
            )[k] == n.0.allpass[k] by {
                assert(self.allpass_memories@[k]@ =~= n.0.allpass[k]);
            }
            assert(bank_view(self.allpass_memories@) =~= n.0.allpass);
            assert(crate::model::engine_model(*self) =~~= n.0);
        }
        total
    }

    /// Run the output stage for one frame: sum the accumulator into a
    /// stereo pair, push it into the output ring, read the wet pair back at
    /// the smoothed pre-delay, apply the width, and mix with the dry input.
    /// Exactly [`crate::model::output_fn`].
    fn output_stage(&mut self, total: Fix4, cur: &CurState, l: i64, r: i64) -> (out: (i64, i64))
        requires
            old(self).wf(),
            FX_MIN_DELAY <= cur.sample_delay.l0 <= FX_MAX_SAMPLE_RATE,
            FX_MIN_DELAY <= cur.sample_delay.l1 <= FX_MAX_SAMPLE_RATE,
            FX_MIN_DELAY <= cur.sample_delay.l2 <= FX_MAX_SAMPLE_RATE,
            FX_MIN_DELAY <= cur.sample_delay.l3 <= FX_MAX_SAMPLE_RATE,
        ensures
            final(self).wf(),
            *final(self) == (Reverb { stereo_memory: final(self).stereo_memory, ..*old(self) }),
            ({
                let o = crate::model::output_fn(
                    crate::model::engine_model(*old(self)),
                    *cur,
                    total,
                    l,
                    r,
                );
                crate::model::engine_model(*final(self)) == o.0 && out.0 == o.1 && out.1 == o.2
            }),
            -FX_SAT <= out.0 <= FX_SAT,
            -FX_SAT <= out.1 <= FX_SAT,
            cur.dry_amp == fx4_splat_spec(FX_ONE) && cur.wet_amp == fx4_splat_spec(0) ==> out.0
                == fx_clip(l as int) && out.1 == fx_clip(r as int),
            cur.width_coeff == 0 && cur.wet_amp.l0 == cur.wet_amp.l1 && cur.dry_amp.l0
                == cur.dry_amp.l1 && l == r ==> out.0 == out.1,
            cur.width_coeff == 0 && cur.wet_amp.l0 == cur.wet_amp.l1 && cur.dry_amp.l0 == 0
                && cur.dry_amp.l1 == 0 ==> out.0 == out.1,
    {
        self.stereo_memory.push(total.add4(swap_voices_x4(total)));
        let wet = self.stereo_memory.get_interpolated(cur.sample_delay);
        let mid = fx_mul(fx_add(wet.l0, wet.l1), FX_HALF);
        let side = fx_mul(fx_sub(wet.l1, wet.l0), cur.width_coeff);
        let wet_left = fx_sub(mid, side);
        let wet_right = fx_add(mid, side);
        let out_l = fx_add(fx_mul(wet_left, cur.wet_amp.l0), fx_mul(l, cur.dry_amp.l0));
        let out_r = fx_add(fx_mul(wet_right, cur.wet_amp.l1), fx_mul(r, cur.dry_amp.l1));
        proof {
            reveal(crate::model::output_fn);
            let o = crate::model::output_fn(
                crate::model::engine_model(*old(self)),
                *cur,
                total,
                l,
                r,
            );
            assert(self.stereo_memory.left@ =~= o.0.stereo_left);
            assert(self.stereo_memory.right@ =~= o.0.stereo_right);
            assert(crate::model::engine_model(*self) =~~= o.0);
        }
        (out_l, out_r)
    }

    /// Run the network for one stereo frame: read the chorused feedback
    /// taps, tick the diffusion and damping stages, store the new network
    /// state, and mix the delayed wet signal with the dry input.  The
    /// smoothed registers advance by the block's deltas afterwards.  The
    /// whole step is exactly [`crate::model::frame_fn`] of the old state,
    /// the registers and the input pair.
    #[verifier::rlimit(100)]
    #[verifier::spinoff_prover]
    fn tick_frame(&mut self, cur: &mut CurState, ctx: &BlockCtx, l: i64, r: i64) -> (out: (
        i64,
        i64,
    ))
        requires
            old(self).wf(),
            FX_MIN_DELAY <= old(cur).sample_delay.l0 <= FX_MAX_SAMPLE_RATE,
            FX_MIN_DELAY <= old(cur).sample_delay.l1 <= FX_MAX_SAMPLE_RATE,
            FX_MIN_DELAY <= old(cur).sample_delay.l2 <= FX_MAX_SAMPLE_RATE,
            FX_MIN_DELAY <= old(cur).sample_delay.l3 <= FX_MAX_SAMPLE_RATE,
        ensures
            final(self).wf(),
            *final(self) == (Reverb {
                stereo_memory: final(self).stereo_memory,
                allpass_memories: final(self).allpass_memories,
                feedback_memories: final(self).feedback_memories,
                pre_low_filter: final(self).pre_low_filter,
                pre_high_filter: final(self).pre_high_filter,
                low_shelf_filter0: final(self).low_shelf_filter0,
                low_shelf_filter1: final(self).low_shelf_filter1,
                low_shelf_filter2: final(self).low_shelf_filter2,
                low_shelf_filter3: final(self).low_shelf_filter3,
                high_shelf_filter0: final(self).high_shelf_filter0,
                high_shelf_filter1: final(self).high_shelf_filter1,
                high_shelf_filter2: final(self).high_shelf_filter2,
                high_shelf_filter3: final(self).high_shelf_filter3,
                write_index: final(self).write_index,
                ..*old(self)
            }),
            final(self).write_index == (old(self).write_index + 1) % (
            old(self).max_feedback_size as int),
            ({
                let f = crate::model::frame_fn(
                    crate::model::engine_model(*old(self)),
                    *old(cur),
                    *ctx,
                    l,
                    r,
                );
                crate::model::engine_model(*final(self)) == f.0 && *final(cur) == f.1 && out.0
                    == f.2 && out.1 == f.3
            }),
            -FX_SAT <= out.0 <= FX_SAT,
            -FX_SAT <= out.1 <= FX_SAT,
            final(cur).dry_amp == crate::poly_utils::fx4_add_spec(
                old(cur).dry_amp,
                ctx.delta_dry_amp,
            ),
            final(cur).wet_amp == crate::poly_utils::fx4_add_spec(
                old(cur).wet_amp,
                ctx.delta_wet_amp,
            ),
            final(cur).width_coeff == fx_add_spec(
                old(cur).width_coeff as int,
                ctx.delta_width_coeff as int,
            ),
            FX_MIN_DELAY <= final(cur).sample_delay.l0 <= FX_MAX_SAMPLE_RATE,
            FX_MIN_DELAY <= final(cur).sample_delay.l1 <= FX_MAX_SAMPLE_RATE,
            FX_MIN_DELAY <= final(cur).sample_delay.l2 <= FX_MAX_SAMPLE_RATE,
            FX_MIN_DELAY <= final(cur).sample_delay.l3 <= FX_MAX_SAMPLE_RATE,
            old(cur).dry_amp == fx4_splat_spec(FX_ONE) && old(cur).wet_amp == fx4_splat_spec(0)
                ==> out.0 == fx_clip(l as int) && out.1 == fx_clip(r as int),
            old(cur).width_coeff == 0 && old(cur).wet_amp.l0 == old(cur).wet_amp.l1 && old(
                cur,
            ).dry_amp.l0 == old(cur).dry_amp.l1 && l == r ==> out.0 == out.1,
            old(cur).width_coeff == 0 && old(cur).wet_amp.l0 == old(cur).wet_amp.l1 && old(
                cur,
            ).dry_amp.l0 == 0 && old(cur).dry_amp.l1 == 0 ==> out.0 == out.1,
    {
        let total = self.network_step(cur, ctx, l, r);
        let out = self.output_stage(total, cur, l, r);
        self.write_index = (self.write_index + 1) % self.max_feedback_size;
        cur.width_coeff = fx_add(cur.width_coeff, ctx.delta_width_coeff);
        cur.delay_increment = cur.delay_increment.add4(ctx.delta_delay_increment);
        cur.sample_delay = cur.sample_delay.add4(cur.delay_increment).clamp4(
            FX_MIN_DELAY,
            FX_MAX_SAMPLE_RATE,
        );
        cur.dry_amp = cur.dry_amp.add4(ctx.delta_dry_amp);
        cur.wet_amp = cur.wet_amp.add4(ctx.delta_wet_amp);
        cur.low_shelf_amp = cur.low_shelf_amp.add4(ctx.delta_low_shelf_amp);
        cur.high_shelf_amp = cur.high_shelf_amp.add4(ctx.delta_high_shelf_amp);
        cur.pre_low_coeff = cur.pre_low_coeff.add4(ctx.delta_pre_low_coeff);
        cur.pre_high_coeff = cur.pre_high_coeff.add4(ctx.delta_pre_high_coeff);
        cur.low_shelf_coeff = cur.low_shelf_coeff.add4(ctx.delta_low_shelf_coeff);
        cur.high_shelf_coeff = cur.high_shelf_coeff.add4(ctx.delta_high_shelf_coeff);
        proof {
            reveal(crate::model::frame_fn);
            let f = crate::model::frame_fn(
                crate::model::engine_model(*old(self)),
                *old(cur),
                *ctx,
                l,
                r,
            );
            assert(crate::model::engine_model(*self) =~~= f.0);
            assert(*cur =~= f.1);
        }
        out
    }
}

impl Reverb {
    /// The per-lane decay coefficients of one container:
    /// `0.001 ^ (delay * size_mult / (decay * base_rate))` for each line.
    fn container_decays(fdelay: Fix4, size_mult: i64, decay_samples: i64) -> (r: Fix4)
        requires
            decay_samples > 0,
            0 <= size_mult <= 8388536,
            0 <= fdelay.l0 <= 11878793216,
            0 <= fdelay.l1 <= 11878793216,
            0 <= fdelay.l2 <= 11878793216,
            0 <= fdelay.l3 <= 11878793216,
        ensures
            r == container_decays_spec(fdelay, size_mult as int, decay_samples as int),
            0 <= r.l0 <= FX_ONE,
            0 <= r.l1 <= FX_ONE,
            0 <= r.l2 <= FX_ONE,
            0 <= r.l3 <= FX_ONE,
    {
        proof {
            reveal(container_decays_spec);
        }
        Fix4 {
            l0: Self::decay_lane(fdelay.l0, size_mult, decay_samples),
            l1: Self::decay_lane(fdelay.l1, size_mult, decay_samples),
            l2: Self::decay_lane(fdelay.l2, size_mult, decay_samples),
            l3: Self::decay_lane(fdelay.l3, size_mult, decay_samples),
        }
    }

    /// One lane of the decay computation.
    fn decay_lane(fdelay: i64, size_mult: i64, decay_samples: i64) -> (r: i64)
        requires
            decay_samples > 0,
            0 <= size_mult,
            0 <= fdelay,
        ensures
            r == decay_lane_spec(fdelay as int, size_mult as int, decay_samples as int),
            0 <= r <= FX_ONE,
    {
        proof {
            reveal(decay_lane_spec);
        }
        let t = fx_mul(fdelay, size_mult);
        let e = fx_div(t, decay_samples);
        let arg = fx_mul(FX_T60_LOG2, e);
        proof {
            crate::fixed::lemma_fx_mul_nonpos(FX_T60_LOG2 as int, e as int);
        }
        exp2_fx(arg)
    }

    /// Clamp one cutoff control and refresh its coefficient target if it
    /// moved; returns the block's starting coefficient and per-sample delta.
    /// `which` selects among the pre-filter lowpass, pre-filter highpass,
    /// low-shelf and high-shelf cutoffs.
    fn update_cutoff(&mut self, which: usize, new_cut: i64, tick: i64) -> (r: (Fix4, Fix4))
        requires
            old(self).wf(),
            which < 4,
            ReverbParams::MIN_CUTOFF_FREQ <= new_cut <= ReverbParams::MAX_CUTOFF_FREQ,
        ensures
            final(self).wf(),
            which == 0 ==> ({
                let u = crate::model::cutoff_prep_spec(
                    old(self).prev_pre_low_cut_hz,
                    old(self).pre_low_coeff,
                    new_cut,
                    old(self).sample_rate,
                    tick,
                );
                *final(self) == (Reverb {
                    prev_pre_low_cut_hz: u.0,
                    pre_low_coeff: u.1,
                    ..*old(self)
                }) && r == (u.2, u.3)
            }),
            which == 1 ==> ({
                let u = crate::model::cutoff_prep_spec(
                    old(self).prev_pre_high_cut_hz,
                    old(self).pre_high_coeff,
                    new_cut,
                    old(self).sample_rate,
                    tick,
                );
                *final(self) == (Reverb {
                    prev_pre_high_cut_hz: u.0,
                    pre_high_coeff: u.1,
                    ..*old(self)
                }) && r == (u.2, u.3)
            }),
            which == 2 ==> ({
                let u = crate::model::cutoff_prep_spec(
                    old(self).prev_low_shelf_cut_hz,
                    old(self).low_shelf_coeff,
                    new_cut,
                    old(self).sample_rate,
                    tick,
                );
                *final(self) == (Reverb {
                    prev_low_shelf_cut_hz: u.0,
                    low_shelf_coeff: u.1,
                    ..*old(self)
                }) && r == (u.2, u.3)
            }),
            which == 3 ==> ({
                let u = crate::model::cutoff_prep_spec(
                    old(self).prev_high_shelf_cut_hz,
                    old(self).high_shelf_coeff,
                    new_cut,
                    old(self).sample_rate,
                    tick,
                );
                *final(self) == (Reverb {
                    prev_high_shelf_cut_hz: u.0,
                    high_shelf_coeff: u.1,
                    ..*old(self)
                }) && r == (u.2, u.3)
            }),
    {
        proof {
            reveal(crate::model::cutoff_prep_spec);
        }
        if which == 0 {
            let cur = self.pre_low_coeff;
            if self.prev_pre_low_cut_hz != new_cut {
                self.prev_pre_low_cut_hz = new_cut;
                let nc = OnePoleFilter::compute_coeff(
                    Fix4::splat(new_cut),
                    Fix4::splat(self.sample_rate),
                );
                self.pre_low_coeff = nc;
                (cur, nc.sub4(cur).mul4(Fix4::splat(tick)))
            } else {
                (cur, Fix4::zero())
            }
        } else if which == 1 {
            let cur = self.pre_high_coeff;
            if self.prev_pre_high_cut_hz != new_cut {
                self.prev_pre_high_cut_hz = new_cut;
                let nc = OnePoleFilter::compute_coeff(
                    Fix4::splat(new_cut),
                    Fix4::splat(self.sample_rate),
                );
                self.pre_high_coeff = nc;
                (cur, nc.sub4(cur).mul4(Fix4::splat(tick)))
            } else {
                (cur, Fix4::zero())
            }
        } else if which == 2 {
            let cur = self.low_shelf_coeff;
            if self.prev_low_shelf_cut_hz != new_cut {
                self.prev_low_shelf_cut_hz = new_cut;
                let nc = OnePoleFilter::compute_coeff(
                    Fix4::splat(new_cut),
                    Fix4::splat(self.sample_rate),
                );
                self.low_shelf_coeff = nc;
                (cur, nc.sub4(cur).mul4(Fix4::splat(tick)))
            } else {
                (cur, Fix4::zero())
            }
        } else {
            let cur = self.high_shelf_coeff;
            if self.prev_high_shelf_cut_hz != new_cut {
                self.prev_high_shelf_cut_hz = new_cut;
                let nc = OnePoleFilter::compute_coeff(
                    Fix4::splat(new_cut),
                    Fix4::splat(self.sample_rate),
                );
                self.high_shelf_coeff = nc;
                (cur, nc.sub4(cur).mul4(Fix4::splat(tick)))
            } else {
                (cur, Fix4::zero())
            }
        }
    }

    /// Clamp the mix control and refresh the equal-power amplitude targets
    /// if it moved; returns the block's starting dry and wet amplitudes and
    /// their per-sample deltas.  A mix settled at zero keeps the dry
    /// amplitude at exactly one and the wet amplitude at exactly zero.
    fn update_mix(&mut self, mix_val: i64, tick: i64) -> (r: (Fix4, Fix4, Fix4, Fix4))
        requires
            old(self).wf(),
            0 <= mix_val <= FX_ONE,
        ensures
            final(self).wf(),
            ({
                let m = crate::model::mix_prep_spec(
                    old(self).prev_mix_val,
                    old(self).dry_amp,
                    old(self).wet_amp,
                    mix_val,
                    tick,
                );
                *final(self) == (Reverb {
                    prev_mix_val: mix_val,
                    dry_amp: m.0,
                    wet_amp: m.1,
                    ..*old(self)
                }) && r == (old(self).dry_amp, old(self).wet_amp, m.2, m.3)
            }),
            final(self).prev_mix_val == mix_val,
            lanes_equal(r.0),
            lanes_equal(r.1),
            lanes_equal(r.2),
            lanes_equal(r.3),
            old(self).prev_mix_val == 0 && mix_val == 0 ==> r.0 == fx4_splat_spec(FX_ONE) && r.1
                == fx4_splat_spec(0) && r.2 == fx4_splat_spec(0) && r.3 == fx4_splat_spec(0),
            old(self).prev_mix_val == FX_ONE && mix_val == FX_ONE ==> r.0 == fx4_splat_spec(0)
                && r.1 == fx4_splat_spec(FX_ONE) && r.2 == fx4_splat_spec(0) && r.3
                == fx4_splat_spec(0),
    {
        proof {
            reveal(crate::model::mix_prep_spec);
        }
        let cur_dry = self.dry_amp;
        let cur_wet = self.wet_amp;
        if self.prev_mix_val != mix_val {
            self.prev_mix_val = mix_val;
            self.dry_amp = Fix4::splat(equal_power_fade(mix_val));
            self.wet_amp = Fix4::splat(equal_power_fade_inverse(mix_val));
            (
                cur_dry,
                cur_wet,
                self.dry_amp.sub4(cur_dry).mul4(Fix4::splat(tick)),
                self.wet_amp.sub4(cur_wet).mul4(Fix4::splat(tick)),
            )
        } else {
            (cur_dry, cur_wet, Fix4::zero(), Fix4::zero())
        }
    }

    /// Clamp the shelf gains and refresh the shelf amplitude targets that
    /// moved; returns the block's starting amplitudes and their deltas.
    fn update_shelf_amps(&mut self, low_gain: i64, high_gain: i64, tick: i64) -> (r: (
        Fix4,
        Fix4,
        Fix4,
        Fix4,
    ))
        requires
            old(self).wf(),
            ReverbParams::MIN_SHELF_GAIN_DB <= low_gain <= 0,
            ReverbParams::MIN_SHELF_GAIN_DB <= high_gain <= 0,
        ensures
            final(self).wf(),
            ({
                let a = crate::model::shelf_prep_spec(
                    old(self).prev_low_shelf_gain_db,
                    old(self).low_shelf_amp,
                    low_gain,
                    true,
                    tick,
                );
                let b = crate::model::shelf_prep_spec(
                    old(self).prev_high_shelf_gain_db,
                    old(self).high_shelf_amp,
                    high_gain,
                    false,
                    tick,
                );
                *final(self) == (Reverb {
                    prev_low_shelf_gain_db: low_gain,
                    prev_high_shelf_gain_db: high_gain,
                    low_shelf_amp: a.0,
                    high_shelf_amp: b.0,
                    ..*old(self)
                }) && r == (old(self).low_shelf_amp, old(self).high_shelf_amp, a.1, b.1)
            }),
    {
        proof {
            reveal(crate::model::shelf_prep_spec);
        }
        let cur_low = self.low_shelf_amp;
        let delta_low = if self.prev_low_shelf_gain_db != low_gain {
            self.prev_low_shelf_gain_db = low_gain;
            self.low_shelf_amp = Fix4::splat(fx_sub(FX_ONE, db_to_amplitude(low_gain)));
            self.low_shelf_amp.sub4(cur_low).mul4(Fix4::splat(tick))
        } else {
            Fix4::zero()
        };
        let cur_high = self.high_shelf_amp;
        let delta_high = if self.prev_high_shelf_gain_db != high_gain {
            self.prev_high_shelf_gain_db = high_gain;
            self.high_shelf_amp = Fix4::splat(db_to_amplitude(high_gain));
            self.high_shelf_amp.sub4(cur_high).mul4(Fix4::splat(tick))
        } else {
            Fix4::zero()
        };
        (cur_low, cur_high, delta_low, delta_high)
    }

    /// Clamp the size and decay controls and refresh the size multiplier,
    /// the per-line decay coefficients and the per-line delays if either
    /// moved; returns the starting decay registers and their deltas.
    fn update_size_decay(&mut self, size_val: i64, decay_val: i64, tick: i64) -> (r: (
        (Fix4, Fix4, Fix4, Fix4),
        (Fix4, Fix4, Fix4, Fix4),
    ))
        requires
            old(self).wf(),
            0 <= size_val <= FX_ONE,
            ReverbParams::MIN_DECAY_SECONDS <= decay_val <= ReverbParams::MAX_DECAY_SECONDS,
        ensures
            final(self).wf(),
            ({
                let sd = crate::model::size_decay_prep_spec(
                    old(self).prev_size_val,
                    old(self).prev_decay_val,
                    old(self).size_mult,
                    old(self).decays0,
                    old(self).decays1,
                    old(self).decays2,
                    old(self).decays3,
                    old(self).delays0,
                    old(self).delays1,
                    old(self).delays2,
                    old(self).delays3,
                    old(self).sample_rate_ratio,
                    size_val,
                    decay_val,
                    tick,
                );
                *final(self) == (Reverb {
                    prev_size_val: size_val,
                    prev_decay_val: decay_val,
                    size_mult: sd.0,
                    decays0: sd.1.0,
                    decays1: sd.1.1,
                    decays2: sd.1.2,
                    decays3: sd.1.3,
                    delays0: sd.2.0,
                    delays1: sd.2.1,
                    delays2: sd.2.2,
                    delays3: sd.2.3,
                    ..*old(self)
                }) && r == (
                    (old(self).decays0, old(self).decays1, old(self).decays2, old(self).decays3),
                    sd.3,
                )
            }),
    {
        proof {
            reveal(crate::model::size_decay_prep_spec);
        }
        let cur_d0 = self.decays0;
        let cur_d1 = self.decays1;
        let cur_d2 = self.decays2;
        let cur_d3 = self.decays3;
        if self.prev_size_val != size_val || self.prev_decay_val != decay_val {
            self.prev_decay_val = decay_val;
            if self.prev_size_val != size_val {
                self.prev_size_val = size_val;
                proof {
                    crate::fixed::lemma_fx_mul_nonneg_upper(
                        size_val as int,
                        crate::matrix::FX_FOUR as int,
                        FX_ONE as int,
                        crate::matrix::FX_FOUR as int,
                    );
                }
                self.size_mult = exp2_fx(
                    fx_sub(fx_mul(size_val, crate::matrix::FX_FOUR), FX_THREE),
                );
            }
            let decay_samples = fx_mul(decay_val, FX_BASE_SAMPLE_RATE);
            proof {
                crate::fixed::lemma_fx_mul_pos(
                    decay_val as int,
                    FX_BASE_SAMPLE_RATE as int,
                    104858,
                    FX_BASE_SAMPLE_RATE as int,
                );
            }
            self.decays0 = Self::container_decays(feedback_delay(0), self.size_mult, decay_samples);
            self.decays1 = Self::container_decays(feedback_delay(1), self.size_mult, decay_samples);
            self.decays2 = Self::container_decays(feedback_delay(2), self.size_mult, decay_samples);
            self.decays3 = Self::container_decays(feedback_delay(3), self.size_mult, decay_samples);
            let size_ratio = Fix4::splat(self.size_mult).mul4(Fix4::splat(self.sample_rate_ratio));
            self.delays0 = feedback_delay(0).mul4(size_ratio);
            self.delays1 = feedback_delay(1).mul4(size_ratio);
            self.delays2 = feedback_delay(2).mul4(size_ratio);
            self.delays3 = feedback_delay(3).mul4(size_ratio);
            (
                (cur_d0, cur_d1, cur_d2, cur_d3),
                (
                    self.decays0.sub4(cur_d0).mul4(Fix4::splat(tick)),
                    self.decays1.sub4(cur_d1).mul4(Fix4::splat(tick)),
                    self.decays2.sub4(cur_d2).mul4(Fix4::splat(tick)),
                    self.decays3.sub4(cur_d3).mul4(Fix4::splat(tick)),
                ),
            )
        } else {
            (
                (cur_d0, cur_d1, cur_d2, cur_d3),
                (Fix4::zero(), Fix4::zero(), Fix4::zero(), Fix4::zero()),
            )
        }
    }

    /// Advance the chorus for one block: refresh the rotation step if the
    /// frequency moved, take the per-container oscillator values at the
    /// current phase, advance the phase by the block, and cap the excursion
    /// target under every line's delay.  Returns the starting oscillator
    /// values, the starting excursion and its delta.
    fn update_chorus(&mut self, chorus_freq: i64, amount_val: i64, frames_i: i64, tick: i64) -> (r:
        (Fix4, Fix4, Fix4, Fix4))
        requires
            old(self).wf(),
            ReverbParams::MIN_CHORUS_FREQ <= chorus_freq <= ReverbParams::MAX_CHORUS_FREQ,
            0 <= amount_val <= FX_ONE,
            1 <= frames_i <= 128,
        ensures
            final(self).wf(),
            ({
                let ch = crate::model::chorus_prep_spec(
                    old(self).prev_chorus_freq_hz,
                    old(self).chorus_increment_real,
                    old(self).chorus_increment_imaginary,
                    old(self).chorus_phase,
                    old(self).sample_rate,
                    old(self).sample_rate_ratio,
                    old(self).chorus_amount,
                    old(self).delays0,
                    old(self).delays1,
                    old(self).delays2,
                    old(self).delays3,
                    chorus_freq,
                    amount_val,
                    frames_i as int,
                    tick,
                );
                *final(self) == (Reverb {
                    prev_chorus_freq_hz: chorus_freq,
                    chorus_increment_real: ch.0.0,
                    chorus_increment_imaginary: ch.0.1,
                    chorus_phase: ch.1,
                    chorus_amount: ch.3,
                    ..*old(self)
                }) && r == (ch.2.0, ch.2.1, old(self).chorus_amount, ch.4)
            }),
            lanes_at_most(
                final(self).chorus_amount,
                crate::poly_utils::fx4_sub_spec(
                    old(self).delays0,
                    fx4_splat_spec(FX_CHORUS_GUARD),
                ),
            ),
            lanes_at_most(
                final(self).chorus_amount,
                crate::poly_utils::fx4_sub_spec(
                    old(self).delays1,
                    fx4_splat_spec(FX_CHORUS_GUARD),
                ),
            ),
            lanes_at_most(
                final(self).chorus_amount,
                crate::poly_utils::fx4_sub_spec(
                    old(self).delays2,
                    fx4_splat_spec(FX_CHORUS_GUARD),
                ),
            ),
            lanes_at_most(
                final(self).chorus_amount,
                crate::poly_utils::fx4_sub_spec(
                    old(self).delays3,
                    fx4_splat_spec(FX_CHORUS_GUARD),
                ),
            ),
    {
        proof {
            reveal(crate::model::chorus_prep_spec);
        }
        let phase_inc = fx_div(chorus_freq, self.sample_rate);
        proof {
            vstd::arithmetic::div_mod::lemma_div_is_ordered(
                (chorus_freq as int) * (FX_ONE as int),
                8796093022208,
                self.sample_rate as int,
            );
            vstd::arithmetic::div_mod::lemma_div_is_ordered_by_denominator(
                8796093022208,
                FX_BASE_SAMPLE_RATE as int,
                self.sample_rate as int,
            );
        }
        if self.prev_chorus_freq_hz != chorus_freq {
            self.prev_chorus_freq_hz = chorus_freq;
            self.chorus_increment_real = cos2pi(phase_inc);
            self.chorus_increment_imaginary = sin2pi(phase_inc);
        }
        let p = self.chorus_phase;
        let t0 = ((p as u64) % (FX_ONE as u64)) as i64;
        let t1 = (((p + FX_SIXTEENTH_TURN) as u64) % (FX_ONE as u64)) as i64;
        let t2 = (((p + 2 * FX_SIXTEENTH_TURN) as u64) % (FX_ONE as u64)) as i64;
        let t3 = (((p + 3 * FX_SIXTEENTH_TURN) as u64) % (FX_ONE as u64)) as i64;
        let creal = Fix4 { l0: cos2pi(t0), l1: cos2pi(t1), l2: cos2pi(t2), l3: cos2pi(t3) };
        let cimag = Fix4 { l0: sin2pi(t0), l1: sin2pi(t1), l2: sin2pi(t2), l3: sin2pi(t3) };
        proof {
            assert(0 <= frames_i * phase_inc <= 128 * 190) by (nonlinear_arith)
                requires
                    1 <= frames_i <= 128,
                    0 <= phase_inc <= 190,
            ;
        }
        self.chorus_phase = (((p + frames_i * phase_inc) as u64) % (FX_ONE as u64)) as i64;
        let cur_amount = self.chorus_amount;
        let base_amount = fx_mul(
            fx_mul(amount_val, FX_MAX_CHORUS_DRIFT),
            self.sample_rate_ratio,
        );
        let guard = Fix4::splat(FX_CHORUS_GUARD);
        let amount = Fix4::splat(base_amount).min4(self.delays0.sub4(guard)).min4(
            self.delays1.sub4(guard),
        ).min4(self.delays2.sub4(guard)).min4(self.delays3.sub4(guard));
        self.chorus_amount = amount;
        (creal, cimag, cur_amount, amount.sub4(cur_amount).mul4(Fix4::splat(tick)))
    }

    /// Derive the smoothed coefficient ramps for one block of `frames`
    /// frames: clamp every control, recompute the targets whose controls
    /// moved, and return the per-sample deltas with the starting registers.
    #[verifier::rlimit(100)]
    fn prepare_block(&mut self, frames: usize, params: &ReverbParams) -> (r: (BlockCtx, CurState))
        requires
            old(self).wf(),
            old(self).did_init,
            1 <= frames <= MAX_BLOCK_SIZE,
        ensures
            final(self).wf(),
            final(self).did_init,
            lanes_equal(r.1.dry_amp),
            lanes_equal(r.1.wet_amp),
            lanes_equal(r.0.delta_dry_amp),
            lanes_equal(r.0.delta_wet_amp),
            FX_MIN_DELAY <= r.1.sample_delay.l0 <= FX_MAX_SAMPLE_RATE,
            FX_MIN_DELAY <= r.1.sample_delay.l1 <= FX_MAX_SAMPLE_RATE,
            FX_MIN_DELAY <= r.1.sample_delay.l2 <= FX_MAX_SAMPLE_RATE,
            FX_MIN_DELAY <= r.1.sample_delay.l3 <= FX_MAX_SAMPLE_RATE,
            final(self).prev_mix_val == fx_clamp_spec(params.mix as int, 0, FX_ONE as int),
            fx_clamp_spec(params.mix as int, 0, FX_ONE as int) == 0 ==> final(self).prev_mix_val
                == 0,
            old(self).prev_mix_val == 0 && fx_clamp_spec(params.mix as int, 0, FX_ONE as int) == 0
                ==> r.1.dry_amp == fx4_splat_spec(FX_ONE) && r.1.wet_amp == fx4_splat_spec(0)
                && r.0.delta_dry_amp == fx4_splat_spec(0) && r.0.delta_wet_amp == fx4_splat_spec(
                0,
            ),
            fx_clamp_spec(params.width as int, -(FX_ONE as int), FX_ONE as int) == -FX_ONE
                ==> final(self).width_coeff == 0,
            old(self).width_coeff == 0 && fx_clamp_spec(
                params.width as int,
                -(FX_ONE as int),
                FX_ONE as int,
            ) == -FX_ONE ==> r.1.width_coeff == 0 && r.0.delta_width_coeff == 0,
            old(self).prev_mix_val == FX_ONE && fx_clamp_spec(params.mix as int, 0, FX_ONE as int)
                == FX_ONE ==> r.1.dry_amp == fx4_splat_spec(0) && r.1.wet_amp == fx4_splat_spec(
                FX_ONE,
            ) && r.0.delta_dry_amp == fx4_splat_spec(0) && r.0.delta_wet_amp == fx4_splat_spec(0),
            ({
                let pr = crate::model::prep_fn(
                    crate::model::engine_model(*old(self)),
                    *params,
                    frames as int,
                );
                crate::model::engine_model(*final(self)) == pr.0 && r.0 == pr.1 && r.1 == pr.2
            }),
            final(self).write_index == old(self).write_index,
            final(self).max_feedback_size == old(self).max_feedback_size,
    {
        let frames_i = frames as i64;
        let tick = ((FX_ONE as u64) / (frames as u64)) as i64;
        self.refresh_guards();

        let c0 = self.update_cutoff(
            0,
            fx_clamp(
                params.pre_low_cut_hz,
                ReverbParams::MIN_CUTOFF_FREQ,
                ReverbParams::MAX_CUTOFF_FREQ,
            ),
            tick,
        );
        let c1 = self.update_cutoff(
            1,
            fx_clamp(
                params.pre_high_cut_hz,
                ReverbParams::MIN_CUTOFF_FREQ,
                ReverbParams::MAX_CUTOFF_FREQ,
            ),
            tick,
        );
        let c2 = self.update_cutoff(
            2,
            fx_clamp(
                params.low_shelf_cut_hz,
                ReverbParams::MIN_CUTOFF_FREQ,
                ReverbParams::MAX_CUTOFF_FREQ,
            ),
            tick,
        );
        let c3 = self.update_cutoff(
            3,
            fx_clamp(
                params.high_shelf_cut_hz,
                ReverbParams::MIN_CUTOFF_FREQ,
                ReverbParams::MAX_CUTOFF_FREQ,
            ),
            tick,
        );

        let mix = self.update_mix(fx_clamp(params.mix, 0, FX_ONE), tick);

        let shelf = self.update_shelf_amps(
            fx_clamp(
                params.low_shelf_gain_db,
                ReverbParams::MIN_SHELF_GAIN_DB,
                ReverbParams::MAX_SHELF_GAIN_DB,
            ),
            fx_clamp(
                params.high_shelf_gain_db,
                ReverbParams::MIN_SHELF_GAIN_DB,
                ReverbParams::MAX_SHELF_GAIN_DB,
            ),
            tick,
        );

        // The width ramp; the width target is refreshed every block.
        let cur_width = self.width_coeff;
        self.width_coeff = fx_mul(
            fx_add(fx_clamp(params.width, -FX_ONE, FX_ONE), FX_ONE),
            FX_HALF,
        );
        let delta_width = fx_mul(fx_sub(self.width_coeff, cur_width), tick);

        let sd = self.update_size_decay(
            fx_clamp(params.size, 0, FX_ONE),
            fx_clamp(
                params.decay,
                ReverbParams::MIN_DECAY_SECONDS,
                ReverbParams::MAX_DECAY_SECONDS,
            ),
            tick,
        );

        let chorus = self.update_chorus(
            fx_clamp(
                params.chorus_freq_hz,
                ReverbParams::MIN_CHORUS_FREQ,
                ReverbParams::MAX_CHORUS_FREQ,
            ),
            fx_clamp(params.chorus_amount, 0, FX_ONE),
            frames_i,
            tick,
        );

        // The pre-delay: a quadratic pull toward the target.
        let cur_sd = self.sample_delay;
        let cur_inc = self.sample_delay_increment;
        let end_target = cur_sd.add4(cur_inc.mul4(Fix4::splat(frames_i * FX_ONE)));
        let raw_target = fx_clamp(
            fx_mul(params.delay, self.sample_rate),
            FX_MIN_DELAY,
            FX_MAX_SAMPLE_RATE,
        );
        let target = interpolate_fx(cur_sd, Fix4::splat(raw_target), Fix4::splat(FX_DELAY_SMOOTH));
        let makeup = target.sub4(end_target);
        proof {
            assert(1 <= frames_i * frames_i <= 16384) by (nonlinear_arith)
                requires
                    1 <= frames_i <= 128,
            ;
        }
        let half_ff = frames_i * frames_i * FX_HALF;
        let delta_inc = makeup.div4s(half_ff).mul4(Fix4::splat(FX_DELAY_SMOOTH));

        let ctx = BlockCtx {
            delta_pre_low_coeff: c0.1,
            delta_pre_high_coeff: c1.1,
            delta_low_shelf_coeff: c2.1,
            delta_high_shelf_coeff: c3.1,
            delta_dry_amp: mix.2,
            delta_wet_amp: mix.3,
            delta_low_shelf_amp: shelf.2,
            delta_high_shelf_amp: shelf.3,
            delta_width_coeff: delta_width,
            delta_decays0: sd.1.0,
            delta_decays1: sd.1.1,
            delta_decays2: sd.1.2,
            delta_decays3: sd.1.3,
            delta_chorus_amount: chorus.3,
            delta_delay_increment: delta_inc,
            chorus_increment_real: self.chorus_increment_real,
            chorus_increment_imaginary: self.chorus_increment_imaginary,
        };
        let cur = CurState {
            pre_low_coeff: c0.0,
            pre_high_coeff: c1.0,
            low_shelf_coeff: c2.0,
            high_shelf_coeff: c3.0,
            dry_amp: mix.0,
            wet_amp: mix.1,
            low_shelf_amp: shelf.0,
            high_shelf_amp: shelf.1,
            width_coeff: cur_width,
            decays0: sd.0.0,
            decays1: sd.0.1,
            decays2: sd.0.2,
            decays3: sd.0.3,
            chorus_amount: chorus.2,
            chorus_real: chorus.0,
            chorus_imag: chorus.1,
            sample_delay: cur_sd,
            delay_increment: cur_inc,
        };
        proof {
            reveal(crate::model::prep_fn);
            let pr = crate::model::prep_fn(
                crate::model::engine_model(*old(self)),
                *params,
                frames as int,
            );
            assert forall|k: int| 0 <= k < 16 implies bank_view(self.feedback_memories@)[k]
                == pr.0.feedback[k] by {
                assert(self.feedback_memories@[k]@ =~= pr.0.feedback[k]);
            }
            assert(bank_view(self.feedback_memories@) =~= pr.0.feedback);
            assert(crate::model::engine_model(*self) =~~= pr.0);
            assert(ctx == pr.1);
            assert(cur == pr.2);
        }
        (ctx, cur)
    }

    /// Run one frame at buffer position `idx`: read the dry pair, tick the
    /// network, and write the mixed pair back.
    fn frame_step(
        &mut self,
        cur: &mut CurState,
        ctx: &BlockCtx,
        left: &mut Vec<i64>,
        right: &mut Vec<i64>,
        idx: usize,
    )
        requires
            old(self).wf(),
            old(left)@.len() == old(right)@.len(),
            idx < old(left)@.len(),
            FX_MIN_DELAY <= old(cur).sample_delay.l0 <= FX_MAX_SAMPLE_RATE,
            FX_MIN_DELAY <= old(cur).sample_delay.l1 <= FX_MAX_SAMPLE_RATE,
            FX_MIN_DELAY <= old(cur).sample_delay.l2 <= FX_MAX_SAMPLE_RATE,
            FX_MIN_DELAY <= old(cur).sample_delay.l3 <= FX_MAX_SAMPLE_RATE,
        ensures
            final(self).wf(),
            *final(self) == (Reverb {
                stereo_memory: final(self).stereo_memory,
                allpass_memories: final(self).allpass_memories,
                feedback_memories: final(self).feedback_memories,
                pre_low_filter: final(self).pre_low_filter,
                pre_high_filter: final(self).pre_high_filter,
                low_shelf_filter0: final(self).low_shelf_filter0,
                low_shelf_filter1: final(self).low_shelf_filter1,
                low_shelf_filter2: final(self).low_shelf_filter2,
                low_shelf_filter3: final(self).low_shelf_filter3,
                high_shelf_filter0: final(self).high_shelf_filter0,
                high_shelf_filter1: final(self).high_shelf_filter1,
                high_shelf_filter2: final(self).high_shelf_filter2,
                high_shelf_filter3: final(self).high_shelf_filter3,
                write_index: final(self).write_index,
                ..*old(self)
            }),
            final(left)@.len() == old(left)@.len(),
            final(right)@.len() == old(right)@.len(),
            forall|j: int|
                0 <= j < old(left)@.len() && j != idx ==> #[trigger] final(left)@[j] == old(
                    left,
                )@[j],
            forall|j: int|
                0 <= j < old(right)@.len() && j != idx ==> #[trigger] final(right)@[j] == old(
                    right,
                )@[j],
            -FX_SAT <= final(left)@[idx as int] <= FX_SAT,
            -FX_SAT <= final(right)@[idx as int] <= FX_SAT,
            final(self).write_index == (old(self).write_index + 1) % (
            old(self).max_feedback_size as int),
            final(cur).dry_amp == crate::poly_utils::fx4_add_spec(
                old(cur).dry_amp,
                ctx.delta_dry_amp,
            ),
            final(cur).wet_amp == crate::poly_utils::fx4_add_spec(
                old(cur).wet_amp,
                ctx.delta_wet_amp,
            ),
            final(cur).width_coeff == fx_add_spec(
                old(cur).width_coeff as int,
                ctx.delta_width_coeff as int,
            ),
            FX_MIN_DELAY <= final(cur).sample_delay.l0 <= FX_MAX_SAMPLE_RATE,
            FX_MIN_DELAY <= final(cur).sample_delay.l1 <= FX_MAX_SAMPLE_RATE,
            FX_MIN_DELAY <= final(cur).sample_delay.l2 <= FX_MAX_SAMPLE_RATE,
            FX_MIN_DELAY <= final(cur).sample_delay.l3 <= FX_MAX_SAMPLE_RATE,
            old(cur).dry_amp == fx4_splat_spec(FX_ONE) && old(cur).wet_amp == fx4_splat_spec(0)
                ==> final(left)@[idx as int] == fx_clip(old(left)@[idx as int] as int)
                && final(right)@[idx as int] == fx_clip(old(right)@[idx as int] as int),
            old(cur).width_coeff == 0 && old(cur).wet_amp.l0 == old(cur).wet_amp.l1
                && old(cur).dry_amp.l0 == old(cur).dry_amp.l1
                && old(left)@[idx as int] == old(right)@[idx as int]
                ==> final(left)@[idx as int] == final(right)@[idx as int],
            old(cur).width_coeff == 0 && old(cur).wet_amp.l0 == old(cur).wet_amp.l1
                && old(cur).dry_amp.l0 == 0 && old(cur).dry_amp.l1 == 0
                ==> final(left)@[idx as int] == final(right)@[idx as int],
            ({
                let f = crate::model::frame_fn(
                    crate::model::engine_model(*old(self)),
                    *old(cur),
                    *ctx,
                    old(left)@[idx as int],
                    old(right)@[idx as int],
                );
                crate::model::engine_model(*final(self)) == f.0 && *final(cur) == f.1
                    && final(left)@[idx as int] == f.2 && final(right)@[idx as int] == f.3
            }),
    {
        let l = left[idx];
        let r = right[idx];
        let out = self.tick_frame(cur, ctx, l, r);
        left[idx] = out.0;
        right[idx] = out.1;
    }

    /// Process one block of up to [`MAX_BLOCK_SIZE`] frames in place, in
    /// `left[start..start+frames]` and the same range of `right`: derive the
    /// smoothed coefficient ramps for this block, then run the per-sample
    /// network.  With the mix settled at zero the block passes the dry input
    /// through unchanged; with the width settled at minus one the two wet
    /// channels collapse to mono, so equal inputs give equal outputs.
    #[verifier::rlimit(100)]
    #[verifier::spinoff_prover]
    #[verifier::loop_isolation(false)]
    fn process_block(
        &mut self,
        left: &mut Vec<i64>,
        right: &mut Vec<i64>,
        start: usize,
        frames: usize,
        params: &ReverbParams,
    )
        requires
            old(self).wf(),
            old(self).did_init,
            old(left)@.len() == old(right)@.len(),
            1 <= frames <= MAX_BLOCK_SIZE,
            start + frames <= old(left)@.len(),
        ensures
            final(self).wf(),
            final(self).did_init,
            final(left)@.len() == old(left)@.len(),
            final(right)@.len() == old(right)@.len(),
            forall|j: int|
                0 <= j < old(left)@.len() && !(start <= j < start + frames)
                    ==> #[trigger] final(left)@[j] == old(left)@[j],
            forall|j: int|
                0 <= j < old(right)@.len() && !(start <= j < start + frames)
                    ==> #[trigger] final(right)@[j] == old(right)@[j],
            forall|j: int|
                start <= j < start + frames ==> -FX_SAT <= #[trigger] final(left)@[j] <= FX_SAT,
            forall|j: int|
                start <= j < start + frames ==> -FX_SAT <= #[trigger] final(right)@[j] <= FX_SAT,
            final(self).prev_mix_val == fx_clamp_spec(params.mix as int, 0, FX_ONE as int),
            fx_clamp_spec(params.mix as int, 0, FX_ONE as int) == 0 ==> final(self).prev_mix_val
                == 0,
            fx_clamp_spec(params.width as int, -(FX_ONE as int), FX_ONE as int) == -FX_ONE
                ==> final(self).width_coeff == 0,
            old(self).prev_mix_val == 0 && fx_clamp_spec(params.mix as int, 0, FX_ONE as int) == 0
                ==> forall|j: int|
                start <= j < start + frames ==> #[trigger] final(left)@[j] == fx_clip(
                    old(left)@[j] as int,
                ),
            old(self).prev_mix_val == 0 && fx_clamp_spec(params.mix as int, 0, FX_ONE as int) == 0
                ==> forall|j: int|
                start <= j < start + frames ==> #[trigger] final(right)@[j] == fx_clip(
                    old(right)@[j] as int,
                ),
            old(self).width_coeff == 0 && fx_clamp_spec(
                params.width as int,
                -(FX_ONE as int),
                FX_ONE as int,
            ) == -FX_ONE ==> forall|j: int|
                start <= j < start + frames && old(left)@[j] == old(right)@[j]
                    ==> #[trigger] final(left)@[j] == final(right)@[j],
            old(self).width_coeff == 0 && fx_clamp_spec(
                params.width as int,
                -(FX_ONE as int),
                FX_ONE as int,
            ) == -FX_ONE && old(self).prev_mix_val == FX_ONE && fx_clamp_spec(
                params.mix as int,
                0,
                FX_ONE as int,
            ) == FX_ONE ==> forall|j: int|
                start <= j < start + frames ==> #[trigger] final(left)@[j] == final(right)@[j],
            final(self).write_index == (old(self).write_index + frames) % (
            old(self).max_feedback_size as int),
            ({
                let b = crate::model::block_fn(
                    crate::model::engine_model(*old(self)),
                    *params,
                    old(left)@.subrange(start as int, (start + frames) as int),
                    old(right)@.subrange(start as int, (start + frames) as int),
                );
                crate::model::engine_model(*final(self)) == b.0 && final(left)@.subrange(
                    start as int,
                    (start + frames) as int,
                ) == b.1 && final(right)@.subrange(start as int, (start + frames) as int) == b.2
            }),
    {
        // Binding the length keeps the in-range index arithmetic below the
        // machine word for the verifier.
        let buf_len = left.len();
        let ghost m0 = crate::model::engine_model(*old(self));
        let ghost inl = old(left)@.subrange(start as int, (start + frames) as int);
        let ghost inr = old(right)@.subrange(start as int, (start + frames) as int);
        let prep = self.prepare_block(frames, params);
        let ctx = prep.0;
        let mut cur = prep.1;
        let ghost snap: Reverb = *self;
        let ghost cur0 = cur;
        let ghost totalf = crate::model::frames_fn(
            crate::model::engine_model(snap),
            cur,
            ctx,
            inl,
            inr,
        );
        proof {
            crate::model::lemma_frames_len(crate::model::engine_model(snap), cur, ctx, inl, inr);
            vstd::arithmetic::div_mod::lemma_small_mod(
                snap.write_index as nat,
                snap.max_feedback_size as nat,
            );
            assert(inl.skip(0) =~= inl);
            assert(inr.skip(0) =~= inr);
            assert(totalf.2.skip(0) =~= totalf.2);
            assert(totalf.3.skip(0) =~= totalf.3);
        }
        let ghost p3cond = old(self).prev_mix_val == 0 && fx_clamp_spec(
            params.mix as int,
            0,
            FX_ONE as int,
        ) == 0;
        let ghost p10cond = old(self).width_coeff == 0 && fx_clamp_spec(
            params.width as int,
            -(FX_ONE as int),
            FX_ONE as int,
        ) == -FX_ONE;
        let ghost p10wet = p10cond && old(self).prev_mix_val == FX_ONE && fx_clamp_spec(
            params.mix as int,
            0,
            FX_ONE as int,
        ) == FX_ONE;
        let mut i: usize = 0;
        while i < frames
            invariant
                self.wf(),
                self.did_init,
                i <= frames,
                1 <= frames <= MAX_BLOCK_SIZE,
                left@.len() == old(left)@.len(),
                right@.len() == old(right)@.len(),
                old(left)@.len() == old(right)@.len(),
                start + frames <= left@.len(),
                forall|j: int|
                    0 <= j < left@.len() && !(start <= j < start + i) ==> #[trigger] left@[j]
                        == old(left)@[j],
                forall|j: int|
                    0 <= j < right@.len() && !(start <= j < start + i) ==> #[trigger] right@[j]
                        == old(right)@[j],
                forall|j: int|
                    start <= j < start + i ==> -FX_SAT <= #[trigger] left@[j] <= FX_SAT,
                forall|j: int|
                    start <= j < start + i ==> -FX_SAT <= #[trigger] right@[j] <= FX_SAT,
                *self == (Reverb {
                    stereo_memory: self.stereo_memory,
                    allpass_memories: self.allpass_memories,
                    feedback_memories: self.feedback_memories,
                    pre_low_filter: self.pre_low_filter,
                    pre_high_filter: self.pre_high_filter,
                    low_shelf_filter0: self.low_shelf_filter0,
                    low_shelf_filter1: self.low_shelf_filter1,
                    low_shelf_filter2: self.low_shelf_filter2,
                    low_shelf_filter3: self.low_shelf_filter3,
                    high_shelf_filter0: self.high_shelf_filter0,
                    high_shelf_filter1: self.high_shelf_filter1,
                    high_shelf_filter2: self.high_shelf_filter2,
                    high_shelf_filter3: self.high_shelf_filter3,
                    write_index: self.write_index,
                    ..snap
                }),
                cur.dry_amp.l0 == cur.dry_amp.l1,
                cur.wet_amp.l0 == cur.wet_amp.l1,
                FX_MIN_DELAY <= cur.sample_delay.l0 <= FX_MAX_SAMPLE_RATE,
                FX_MIN_DELAY <= cur.sample_delay.l1 <= FX_MAX_SAMPLE_RATE,
                FX_MIN_DELAY <= cur.sample_delay.l2 <= FX_MAX_SAMPLE_RATE,
                FX_MIN_DELAY <= cur.sample_delay.l3 <= FX_MAX_SAMPLE_RATE,
                p3cond ==> cur.dry_amp == fx4_splat_spec(FX_ONE) && cur.wet_amp == fx4_splat_spec(
                    0,
                ) && ctx.delta_dry_amp == fx4_splat_spec(0) && ctx.delta_wet_amp
                    == fx4_splat_spec(0),
                p3cond ==> forall|j: int|
                    start <= j < start + i ==> #[trigger] left@[j] == fx_clip(
                        old(left)@[j] as int,
                    ),
                p3cond ==> forall|j: int|
                    start <= j < start + i ==> #[trigger] right@[j] == fx_clip(
                        old(right)@[j] as int,
                    ),
                p10cond ==> cur.width_coeff == 0 && ctx.delta_width_coeff == 0,
                p10cond ==> forall|j: int|
                    start <= j < start + i && old(left)@[j] == old(right)@[j]
                        ==> #[trigger] left@[j] == right@[j],
                p10wet ==> cur.dry_amp == fx4_splat_spec(0) && cur.wet_amp == fx4_splat_spec(
                    FX_ONE,
                ) && ctx.delta_dry_amp == fx4_splat_spec(0) && ctx.delta_wet_amp
                    == fx4_splat_spec(0),
                p10wet ==> forall|j: int|
                    start <= j < start + i ==> #[trigger] left@[j] == right@[j],
                inl.len() == frames,
                inr.len() == frames,
                crate::model::frames_fn(
                    crate::model::engine_model(*self),
                    cur,
                    ctx,
                    inl.skip(i as int),
                    inr.skip(i as int),
                ) == (totalf.0, totalf.1, totalf.2.skip(i as int), totalf.3.skip(i as int)),
                forall|j: int|
                    0 <= j < i ==> #[trigger] totalf.2[j] == left@[start + j],
                forall|j: int|
                    0 <= j < i ==> #[trigger] totalf.3[j] == right@[start + j],
                self.write_index == (snap.write_index + i) % (snap.max_feedback_size as int),
            decreases frames - i,
        {
            let ghost l_pre = left@;
            let ghost r_pre = right@;
            let ghost m_pre = crate::model::engine_model(*self);
            let ghost cur_pre = cur;
            self.frame_step(&mut cur, &ctx, left, right, start + i);
            proof {
                vstd::arithmetic::div_mod::lemma_add_mod_noop(
                    snap.write_index + i,
                    1,
                    snap.max_feedback_size as int,
                );
                vstd::arithmetic::div_mod::lemma_small_mod(1nat, snap.max_feedback_size as nat);
                assert(inl.skip(i as int)[0] == inl[i as int]);
                assert(inr.skip(i as int)[0] == inr[i as int]);
                assert(l_pre[start + i] == old(left)@[start + i]);
                assert(r_pre[start + i] == old(right)@[start + i]);
                let step = crate::model::frame_fn(
                    m_pre,
                    cur_pre,
                    ctx,
                    inl.skip(i as int)[0],
                    inr.skip(i as int)[0],
                );
                let rest = crate::model::frames_fn(
                    step.0,
                    step.1,
                    ctx,
                    inl.skip(i as int).skip(1),
                    inr.skip(i as int).skip(1),
                );
                crate::model::lemma_frames_len(
                    step.0,
                    step.1,
                    ctx,
                    inl.skip(i as int).skip(1),
                    inr.skip(i as int).skip(1),
                );
                assert(seq![step.2] + rest.2 == totalf.2.skip(i as int));
                assert(seq![step.3] + rest.3 == totalf.3.skip(i as int));
                assert(rest.0 == totalf.0);
                assert(rest.1 == totalf.1);
                assert(inl.skip(i as int).skip(1) =~= inl.skip(i + 1));
                assert(inr.skip(i as int).skip(1) =~= inr.skip(i + 1));
                assert forall|j: int| 0 <= j < rest.2.len() implies #[trigger] rest.2[j]
                    == totalf.2.skip(i + 1)[j] by {
                    assert(rest.2[j] == (seq![step.2] + rest.2)[j + 1]);
                }
                assert forall|j: int| 0 <= j < rest.3.len() implies #[trigger] rest.3[j]
                    == totalf.3.skip(i + 1)[j] by {
                    assert(rest.3[j] == (seq![step.3] + rest.3)[j + 1]);
                }
                assert(rest.2 =~= totalf.2.skip(i + 1));
                assert(rest.3 =~= totalf.3.skip(i + 1));
                assert(totalf.2[i as int] == totalf.2.skip(i as int)[0]);
                assert(totalf.3[i as int] == totalf.3.skip(i as int)[0]);
                assert forall|j: int| start <= j < start + i + 1 implies -FX_SAT
                    <= #[trigger] left@[j] <= FX_SAT by {
                    if j != start + i {
                        assert(left@[j] == l_pre[j]);
                    }
                }
                assert forall|j: int| start <= j < start + i + 1 implies -FX_SAT
                    <= #[trigger] right@[j] <= FX_SAT by {
                    if j != start + i {
                        assert(right@[j] == r_pre[j]);
                    }
                }
                if p3cond {
                    assert forall|j: int| start <= j < start + i + 1 implies #[trigger] left@[j]
                        == fx_clip(old(left)@[j] as int) by {
                        if j != start + i {
                            assert(left@[j] == l_pre[j]);
                        } else {
                            assert(l_pre[j] == old(left)@[j]);
                        }
                    }
                    assert forall|j: int| start <= j < start + i + 1 implies #[trigger] right@[j]
                        == fx_clip(old(right)@[j] as int) by {
                        if j != start + i {
                            assert(right@[j] == r_pre[j]);
                        } else {
                            assert(r_pre[j] == old(right)@[j]);
                        }
                    }
                }
                if p10wet {
                    assert forall|j: int| start <= j < start + i + 1 implies #[trigger] left@[j]
                        == right@[j] by {
                        if j != start + i {
                            assert(left@[j] == l_pre[j]);
                            assert(right@[j] == r_pre[j]);
                        }
                    }
                }
                if p10cond {
                    assert forall|j: int|
                        start <= j < start + i + 1 && old(left)@[j] == old(right)@[j]
                            implies #[trigger] left@[j] == right@[j] by {
                        if j != start + i {
                            assert(left@[j] == l_pre[j]);
                            assert(right@[j] == r_pre[j]);
                        } else {
                            assert(l_pre[j] == old(left)@[j]);
                            assert(r_pre[j] == old(right)@[j]);
                        }
                    }
                }
            }
            i = i + 1;
        }
        proof {
            if p3cond {
                assert forall|j: int| start <= j < start + frames implies #[trigger] left@[j]
                    == fx_clip(old(left)@[j] as int) by {
                }
                assert forall|j: int| start <= j < start + frames implies #[trigger] right@[j]
                    == fx_clip(old(right)@[j] as int) by {
                }
            }
        }
        proof {
            assert(inl.skip(frames as int).len() == 0);
            assert(crate::model::engine_model(*self) == totalf.0);
            assert(cur == totalf.1);
        }
        self.sample_delay = cur.sample_delay;
        self.sample_delay_increment = cur.delay_increment;
        proof {
            reveal(crate::model::block_fn);
            let b = crate::model::block_fn(m0, *params, inl, inr);
            assert(crate::model::engine_model(*self) =~~= b.0);
            assert forall|j: int| 0 <= j < frames implies #[trigger] left@.subrange(
                start as int,
                (start + frames) as int,
            )[j] == totalf.2[j] by {
            }
            assert forall|j: int| 0 <= j < frames implies #[trigger] right@.subrange(
                start as int,
                (start + frames) as int,
            )[j] == totalf.3[j] by {
            }
            assert(left@.subrange(start as int, (start + frames) as int) =~= totalf.2);
            assert(right@.subrange(start as int, (start + frames) as int) =~= totalf.3);
        }
    }

    /// Process the stereo buffers in place with the given parameters.  The
    /// buffers must be the same length; the input is read and the wet plus
    /// dry mix written back.  Parameters are linearly smoothed over at most
    /// [`MAX_BLOCK_SIZE`] frames: longer smoothing takes several calls.
    /// `init` must have run.  Every output sample stays within the
    /// saturation bound of the fixed-point arithmetic; with the mix settled
    /// at zero the call is an exact passthrough of every in-range input, and
    /// with the width settled at minus one equal inputs give equal outputs.
    #[verifier::rlimit(100)]
    #[verifier::spinoff_prover]
    #[verifier::loop_isolation(false)]
    pub fn process(&mut self, left: &mut Vec<i64>, right: &mut Vec<i64>, params: &ReverbParams)
        requires
            old(self).wf(),
            old(self).did_init,
            old(left)@.len() == old(right)@.len(),
        ensures
            final(self).wf(),
            final(self).did_init,
            final(left)@.len() == old(left)@.len(),
            final(right)@.len() == old(right)@.len(),
            forall|j: int|
                0 <= j < old(left)@.len() ==> -FX_SAT <= #[trigger] final(left)@[j] <= FX_SAT,
            forall|j: int|
                0 <= j < old(right)@.len() ==> -FX_SAT <= #[trigger] final(right)@[j] <= FX_SAT,
            fx_clamp_spec(params.mix as int, 0, FX_ONE as int) == 0 && old(left)@.len() > 0
                ==> final(self).prev_mix_val == 0,
            old(self).prev_mix_val == 0 && fx_clamp_spec(params.mix as int, 0, FX_ONE as int) == 0
                ==> forall|j: int|
                0 <= j < old(left)@.len() ==> #[trigger] final(left)@[j] == fx_clip(
                    old(left)@[j] as int,
                ),
            old(self).prev_mix_val == 0 && fx_clamp_spec(params.mix as int, 0, FX_ONE as int) == 0
                ==> forall|j: int|
                0 <= j < old(right)@.len() ==> #[trigger] final(right)@[j] == fx_clip(
                    old(right)@[j] as int,
                ),
            old(self).width_coeff == 0 && fx_clamp_spec(
                params.width as int,
                -(FX_ONE as int),
                FX_ONE as int,
            ) == -FX_ONE && (forall|j: int|
                0 <= j < old(left)@.len() ==> old(left)@[j] == old(right)@[j]) ==> forall|j: int|
                0 <= j < old(left)@.len() ==> #[trigger] final(left)@[j] == final(right)@[j],
            old(self).width_coeff == 0 && fx_clamp_spec(
                params.width as int,
                -(FX_ONE as int),
                FX_ONE as int,
            ) == -FX_ONE && old(self).prev_mix_val == FX_ONE && fx_clamp_spec(
                params.mix as int,
                0,
                FX_ONE as int,
            ) == FX_ONE ==> forall|j: int|
                0 <= j < old(left)@.len() ==> #[trigger] final(left)@[j] == final(right)@[j],
            ({
                let pf = crate::model::process_fn(
                    crate::model::engine_model(*old(self)),
                    *params,
                    old(left)@,
                    old(right)@,
                );
                crate::model::engine_model(*final(self)) == pf.0 && final(left)@ == pf.1
                    && final(right)@ == pf.2
            }),
    {
        let total = left.len();
        let mut processed: usize = 0;
        let ghost totalp = crate::model::process_fn(
            crate::model::engine_model(*old(self)),
            *params,
            old(left)@,
            old(right)@,
        );
        proof {
            crate::model::lemma_process_len(
                crate::model::engine_model(*old(self)),
                *params,
                old(left)@,
                old(right)@,
            );
            assert(old(left)@.skip(0) =~= old(left)@);
            assert(old(right)@.skip(0) =~= old(right)@);
            assert(totalp.1.skip(0) =~= totalp.1);
            assert(totalp.2.skip(0) =~= totalp.2);
        }
        let ghost p3cond = old(self).prev_mix_val == 0 && fx_clamp_spec(
            params.mix as int,
            0,
            FX_ONE as int,
        ) == 0;
        let ghost p10cond = old(self).width_coeff == 0 && fx_clamp_spec(
            params.width as int,
            -(FX_ONE as int),
            FX_ONE as int,
        ) == -FX_ONE;
        let ghost p10wet = p10cond && old(self).prev_mix_val == FX_ONE && fx_clamp_spec(
            params.mix as int,
            0,
            FX_ONE as int,
        ) == FX_ONE;
        while processed < total
            invariant
                self.wf(),
                self.did_init,
                processed <= total,
                total == old(left)@.len(),
                left@.len() == old(left)@.len(),
                right@.len() == old(right)@.len(),
                old(left)@.len() == old(right)@.len(),
                forall|j: int|
                    processed <= j < total ==> #[trigger] left@[j] == old(left)@[j],
                forall|j: int|
                    processed <= j < total ==> #[trigger] right@[j] == old(right)@[j],
                forall|j: int|
                    0 <= j < processed ==> -FX_SAT <= #[trigger] left@[j] <= FX_SAT,
                forall|j: int|
                    0 <= j < processed ==> -FX_SAT <= #[trigger] right@[j] <= FX_SAT,
                fx_clamp_spec(params.mix as int, 0, FX_ONE as int) == 0 && processed > 0
                    ==> self.prev_mix_val == 0,
                p3cond ==> self.prev_mix_val == 0,
                p3cond ==> forall|j: int|
                    0 <= j < processed ==> #[trigger] left@[j] == fx_clip(old(left)@[j] as int),
                p3cond ==> forall|j: int|
                    0 <= j < processed ==> #[trigger] right@[j] == fx_clip(old(right)@[j] as int),
                p10cond ==> self.width_coeff == 0,
                p10cond && (forall|j: int|
                    0 <= j < total ==> old(left)@[j] == old(right)@[j]) ==> forall|j: int|
                    0 <= j < processed ==> #[trigger] left@[j] == right@[j],
                p10wet ==> self.prev_mix_val == FX_ONE && self.width_coeff == 0,
                p10wet ==> forall|j: int|
                    0 <= j < processed ==> #[trigger] left@[j] == right@[j],
                crate::model::process_fn(
                    crate::model::engine_model(*self),
                    *params,
                    old(left)@.skip(processed as int),
                    old(right)@.skip(processed as int),
                ) == (totalp.0, totalp.1.skip(processed as int), totalp.2.skip(processed as int)),
                forall|j: int| 0 <= j < processed ==> #[trigger] totalp.1[j] == left@[j],
                forall|j: int| 0 <= j < processed ==> #[trigger] totalp.2[j] == right@[j],
            decreases total - processed,
        {
            let frames = if total - processed < MAX_BLOCK_SIZE {
                total - processed
            } else {
                MAX_BLOCK_SIZE
            };
            let ghost l_pre = left@;
            let ghost r_pre = right@;
            let ghost prev_done = processed as int;
            let ghost m_pre = crate::model::engine_model(*self);
            self.process_block(left, right, processed, frames, params);
            processed = processed + frames;
            proof {
                reveal(crate::model::process_fn);
                let reml = old(left)@.skip(prev_done);
                let remr = old(right)@.skip(prev_done);
                assert(reml.take(frames as int) =~= old(left)@.subrange(
                    prev_done,
                    prev_done + frames,
                ));
                assert(remr.take(frames as int) =~= old(right)@.subrange(
                    prev_done,
                    prev_done + frames,
                ));
                assert(l_pre.subrange(prev_done, prev_done + frames) =~= old(left)@.subrange(
                    prev_done,
                    prev_done + frames,
                ));
                assert(r_pre.subrange(prev_done, prev_done + frames) =~= old(right)@.subrange(
                    prev_done,
                    prev_done + frames,
                ));
                let b = crate::model::block_fn(
                    m_pre,
                    *params,
                    reml.take(frames as int),
                    remr.take(frames as int),
                );
                crate::model::lemma_block_len(
                    m_pre,
                    *params,
                    reml.take(frames as int),
                    remr.take(frames as int),
                );
                let rest = crate::model::process_fn(
                    b.0,
                    *params,
                    reml.skip(frames as int),
                    remr.skip(frames as int),
                );
                crate::model::lemma_process_len(
                    b.0,
                    *params,
                    reml.skip(frames as int),
                    remr.skip(frames as int),
                );
                assert(b.1 + rest.1 == totalp.1.skip(prev_done));
                assert(b.2 + rest.2 == totalp.2.skip(prev_done));
                assert(rest.0 == totalp.0);
                assert(reml.skip(frames as int) =~= old(left)@.skip(prev_done + frames));
                assert(remr.skip(frames as int) =~= old(right)@.skip(prev_done + frames));
                assert forall|j: int| 0 <= j < rest.1.len() implies #[trigger] rest.1[j]
                    == totalp.1.skip(prev_done + frames)[j] by {
                    assert(rest.1[j] == (b.1 + rest.1)[frames + j]);
                }
                assert forall|j: int| 0 <= j < rest.2.len() implies #[trigger] rest.2[j]
                    == totalp.2.skip(prev_done + frames)[j] by {
                    assert(rest.2[j] == (b.2 + rest.2)[frames + j]);
                }
                assert(rest.1 =~= totalp.1.skip(prev_done + frames));
                assert(rest.2 =~= totalp.2.skip(prev_done + frames));
                assert forall|j: int| prev_done <= j < prev_done + frames
                    implies #[trigger] totalp.1[j] == left@[j] by {
                    assert(left@.subrange(prev_done, prev_done + frames)[j - prev_done]
                        == b.1[j - prev_done]);
                    assert(totalp.1.skip(prev_done)[j - prev_done] == (b.1 + rest.1)[j
                        - prev_done]);
                }
                assert forall|j: int| prev_done <= j < prev_done + frames
                    implies #[trigger] totalp.2[j] == right@[j] by {
                    assert(right@.subrange(prev_done, prev_done + frames)[j - prev_done]
                        == b.2[j - prev_done]);
                    assert(totalp.2.skip(prev_done)[j - prev_done] == (b.2 + rest.2)[j
                        - prev_done]);
                }
                assert forall|j: int| processed <= j < total implies #[trigger] left@[j] == old(
                    left,
                )@[j] by {
                    assert(left@[j] == l_pre[j]);
                }
                assert forall|j: int| processed <= j < total implies #[trigger] right@[j] == old(
                    right,
                )@[j] by {
                    assert(right@[j] == r_pre[j]);
                }
                assert forall|j: int| 0 <= j < processed implies -FX_SAT <= #[trigger] left@[j]
                    <= FX_SAT by {
                    if j < prev_done {
                        assert(left@[j] == l_pre[j]);
                    }
                }
                assert forall|j: int| 0 <= j < processed implies -FX_SAT <= #[trigger] right@[j]
                    <= FX_SAT by {
                    if j < prev_done {
                        assert(right@[j] == r_pre[j]);
                    }
                }
                if p3cond {
                    assert forall|j: int| 0 <= j < processed implies #[trigger] left@[j]
                        == fx_clip(old(left)@[j] as int) by {
                        if j < prev_done {
                            assert(left@[j] == l_pre[j]);
                        } else {
                            assert(left@[j] == fx_clip(l_pre[j] as int));
                            assert(l_pre[j] == old(left)@[j]);
                        }
                    }
                    assert forall|j: int| 0 <= j < processed implies #[trigger] right@[j]
                        == fx_clip(old(right)@[j] as int) by {
                        if j < prev_done {
                            assert(right@[j] == r_pre[j]);
                        } else {
                            assert(right@[j] == fx_clip(r_pre[j] as int));
                            assert(r_pre[j] == old(right)@[j]);
                        }
                    }
                }
                if p10wet {
                    assert forall|j: int| 0 <= j < processed implies #[trigger] left@[j]
                        == right@[j] by {
                        if j < prev_done {
                            assert(left@[j] == l_pre[j]);
                            assert(right@[j] == r_pre[j]);
                        }
                    }
                }
                if p10cond && (forall|j: int|
                    0 <= j < total ==> old(left)@[j] == old(right)@[j]) {
                    assert forall|j: int| 0 <= j < processed implies #[trigger] left@[j]
                        == right@[j] by {
                        if j < prev_done {
                            assert(left@[j] == l_pre[j]);
                            assert(right@[j] == r_pre[j]);
                        } else {
                            assert(l_pre[j] == old(left)@[j]);
                            assert(r_pre[j] == old(right)@[j]);
                        }
                    }
                }
            }
        }
        proof {
            reveal(crate::model::process_fn);
            assert(old(left)@.skip(total as int).len() == 0);
            assert(crate::model::engine_model(*self) == totalp.0);
            assert(left@ =~= totalp.1);
            assert(right@ =~= totalp.2);
        }
    }
}

/// Two powers of two within a factor of two of each other are equal.
pub proof fn lemma_pow2_unique(p: int, q: int)
    requires
        is_pow2(p),
        is_pow2(q),
        p <= q < 2 * p,
    ensures
        p == q,
    decreases p,
{
    reveal_with_fuel(is_pow2, 3);
    if p == 1 {
    } else {
        assert(p % 2 == 0 && is_pow2(p / 2));
        if q == 1 {
            assert(false);
        } else {
            assert(q % 2 == 0 && is_pow2(q / 2));
            assert(p == 2 * (p / 2));
            assert(q == 2 * (q / 2));
            lemma_pow2_unique(p / 2, q / 2);
        }
    }
}

/// The scaled buffer sizes are powers of two for every buffer scale the
/// engine uses.
proof fn lemma_scaled_pow2(scale: int)
    requires
        scale == 1 || scale == 2 || scale == 4 || scale == 8,
    ensures
        is_pow2(scale * 32768),
        is_pow2(scale * 4096),
{
    reveal_with_fuel(is_pow2, 20);
}

/// Resetting the engine twice leaves exactly the state one reset leaves:
/// the reset is idempotent.
pub proof fn lemma_reset_idempotent(a: Reverb, b: Reverb, c: Reverb)
    requires
        Reverb::reset_post(a, b),
        Reverb::reset_post(b, c),
    ensures
        Reverb::state_eq(b, c),
{
    assert forall|k: int| 0 <= k < b.feedback_memories@.len() implies (
    #[trigger] b.feedback_memories@[k])@ == c.feedback_memories@[k]@ by {
        assert(b.feedback_memories@[k]@ =~= c.feedback_memories@[k]@);
    }
    assert forall|k: int| 0 <= k < b.allpass_memories@.len() implies (
    #[trigger] b.allpass_memories@[k])@ == c.allpass_memories@[k]@ by {
        assert(b.allpass_memories@[k]@ =~= c.allpass_memories@[k]@);
    }
    assert(b.stereo_memory.left@ =~= c.stereo_memory.left@);
    assert(b.stereo_memory.right@ =~= c.stereo_memory.right@);
}

/// Two engines initialized at the same sample rate are in the same state:
/// the initialization is deterministic.
pub proof fn lemma_init_deterministic(sr: int, a: Reverb, b: Reverb)
    requires
        Reverb::init_post(sr, a),
        Reverb::init_post(sr, b),
    ensures
        Reverb::state_eq(a, b),
{
    if a.stereo_memory.size <= b.stereo_memory.size {
        lemma_pow2_unique(a.stereo_memory.size as int, b.stereo_memory.size as int);
    } else {
        lemma_pow2_unique(b.stereo_memory.size as int, a.stereo_memory.size as int);
    }
    assert forall|k: int| 0 <= k < a.feedback_memories@.len() implies (
    #[trigger] a.feedback_memories@[k])@ == b.feedback_memories@[k]@ by {
        assert(a.feedback_memories@[k]@ =~= b.feedback_memories@[k]@);
    }
    assert forall|k: int| 0 <= k < a.allpass_memories@.len() implies (
    #[trigger] a.allpass_memories@[k])@ == b.allpass_memories@[k]@ by {
        assert(a.allpass_memories@[k]@ =~= b.allpass_memories@[k]@);
    }
    assert(a.stereo_memory.left@ =~= b.stereo_memory.left@);
    assert(a.stereo_memory.right@ =~= b.stereo_memory.right@);
}

} // verus!
