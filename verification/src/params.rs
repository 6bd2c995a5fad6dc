//! The control parameters of the reverb, as a value-typed snapshot.
//!
//! Every field is a fixed-point number (see [`crate::fixed`]).  Out-of-range
//! values are never rejected: the engine clamps each field to its admissible
//! range when it prepares a block.

use vstd::prelude::*;

verus! {

/// A snapshot of the reverb controls, delivered before each `process` call.
#[derive(Clone, Copy, PartialEq, Eq, Structural, Debug)]
pub struct ReverbParams {
    /// The wet/dry mix, in `[0, 1]`.
    pub mix: i64,
    /// The size of the reverb, in `[0, 1]`.
    pub size: i64,
    /// The decay of the reverb in seconds, in `[0.1, 64]`.
    pub decay: i64,
    /// The pre-delay of the reverb in seconds, in `[0, 0.3]`.
    pub delay: i64,
    /// The stereo width of the wet signal, in `[-1, 1]`; `-1` collapses the
    /// wet output to mono.
    pub width: i64,
    /// The frequency of the feedback chorus in Hz, in `[0.003, 8]`.
    pub chorus_freq_hz: i64,
    /// The amount of feedback chorus, in `[0, 1]`.
    pub chorus_amount: i64,
    /// The cutoff of the highpass applied to the input, in `[20, 20000]` Hz.
    pub pre_low_cut_hz: i64,
    /// The cutoff of the lowpass applied to the input, in `[20, 20000]` Hz.
    pub pre_high_cut_hz: i64,
    /// The cutoff of the low shelf applied to the feedback, in `[20, 20000]` Hz.
    pub low_shelf_cut_hz: i64,
    /// The gain of the low shelf in decibels, in `[-6, 0]`.
    pub low_shelf_gain_db: i64,
    /// The cutoff of the high shelf applied to the feedback, in `[20, 20000]` Hz.
    pub high_shelf_cut_hz: i64,
    /// The gain of the high shelf in decibels, in `[-6, 0]`.
    pub high_shelf_gain_db: i64,
}

impl ReverbParams {
    /// 20 Hz, the lowest filter cutoff.
    pub const MIN_CUTOFF_FREQ: i64 = 20971520;

    /// 20000 Hz, the highest filter cutoff.
    pub const MAX_CUTOFF_FREQ: i64 = 20971520000;

    /// -6 dB, the lowest shelf gain.
    pub const MIN_SHELF_GAIN_DB: i64 = -6291456;

    /// 0 dB, the highest shelf gain.
    pub const MAX_SHELF_GAIN_DB: i64 = 0;

    /// 0 s, the shortest pre-delay.
    pub const MIN_DELAY_SECONDS: i64 = 0;

    /// 0.3 s, the longest pre-delay.
    pub const MAX_DELAY_SECONDS: i64 = 314573;

    /// 0.1 s, the shortest decay.
    pub const MIN_DECAY_SECONDS: i64 = 104858;

    /// 64 s, the longest decay.
    pub const MAX_DECAY_SECONDS: i64 = 67108864;

    /// 0.003 Hz, the slowest chorus.
    pub const MIN_CHORUS_FREQ: i64 = 3146;

    /// 8 Hz, the fastest chorus.
    pub const MAX_CHORUS_FREQ: i64 = 8388608;

    /// The default pre-filter highpass cutoff: 20 Hz.
    pub const DEFAULT_PRE_LOW_CUTOFF: i64 = 20971520;

    /// The default pre-filter lowpass cutoff: 4700 Hz.
    pub const DEFAULT_PRE_HIGH_CUTOFF: i64 = 4928307200;

    /// The default low-shelf cutoff: 20 Hz.
    pub const DEFAULT_LOW_SHELF_CUTOFF: i64 = 20971520;

    /// The default low-shelf gain: 0 dB.
    pub const DEFAULT_LOW_SHELF_GAIN_DB: i64 = 0;

    /// The default high-shelf cutoff: 1480 Hz.
    pub const DEFAULT_HIGH_SHELF_CUTOFF: i64 = 1551892480;

    /// The default high-shelf gain: -1 dB.
    pub const DEFAULT_HIGH_SHELF_GAIN_DB: i64 = -1048576;

    /// The default wet/dry mix: 0.25.
    pub const DEFAULT_DRY_WET_MIX: i64 = 262144;

    /// The default pre-delay: 0.004 s.
    pub const DEFAULT_DELAY_SECONDS: i64 = 4194;

    /// The default decay: 1 s.
    pub const DEFAULT_DECAY_SECONDS: i64 = 1048576;

    /// The default size: 0.5.
    pub const DEFAULT_REVERB_SIZE: i64 = 524288;

    /// The default width: -0.05.
    pub const DEFAULT_WIDTH: i64 = -52429;

    /// The default chorus amount: 0.046.
    pub const DEFAULT_CHORUS_AMOUNT: i64 = 48234;

    /// The default chorus frequency: 0.25 Hz.
    pub const DEFAULT_CHORUS_FREQ: i64 = 262144;
}

impl Default for ReverbParams {
    /// The default parameter snapshot.
    fn default() -> (r: ReverbParams)
        ensures
            r.mix == ReverbParams::DEFAULT_DRY_WET_MIX,
            r.size == ReverbParams::DEFAULT_REVERB_SIZE,
            r.decay == ReverbParams::DEFAULT_DECAY_SECONDS,
            r.delay == ReverbParams::DEFAULT_DELAY_SECONDS,
            r.width == ReverbParams::DEFAULT_WIDTH,
            r.chorus_freq_hz == ReverbParams::DEFAULT_CHORUS_FREQ,
            r.chorus_amount == ReverbParams::DEFAULT_CHORUS_AMOUNT,
            r.pre_low_cut_hz == ReverbParams::DEFAULT_PRE_LOW_CUTOFF,
            r.pre_high_cut_hz == ReverbParams::DEFAULT_PRE_HIGH_CUTOFF,
            r.low_shelf_cut_hz == ReverbParams::DEFAULT_LOW_SHELF_CUTOFF,
            r.low_shelf_gain_db == ReverbParams::DEFAULT_LOW_SHELF_GAIN_DB,
            r.high_shelf_cut_hz == ReverbParams::DEFAULT_HIGH_SHELF_CUTOFF,
            r.high_shelf_gain_db == ReverbParams::DEFAULT_HIGH_SHELF_GAIN_DB,
    {
        ReverbParams {
            mix: ReverbParams::DEFAULT_DRY_WET_MIX,
            size: ReverbParams::DEFAULT_REVERB_SIZE,
            decay: ReverbParams::DEFAULT_DECAY_SECONDS,
            delay: ReverbParams::DEFAULT_DELAY_SECONDS,
            width: ReverbParams::DEFAULT_WIDTH,
            chorus_freq_hz: ReverbParams::DEFAULT_CHORUS_FREQ,
            chorus_amount: ReverbParams::DEFAULT_CHORUS_AMOUNT,
            pre_low_cut_hz: ReverbParams::DEFAULT_PRE_LOW_CUTOFF,
            pre_high_cut_hz: ReverbParams::DEFAULT_PRE_HIGH_CUTOFF,
            low_shelf_cut_hz: ReverbParams::DEFAULT_LOW_SHELF_CUTOFF,
            low_shelf_gain_db: ReverbParams::DEFAULT_LOW_SHELF_GAIN_DB,
            high_shelf_cut_hz: ReverbParams::DEFAULT_HIGH_SHELF_CUTOFF,
            high_shelf_gain_db: ReverbParams::DEFAULT_HIGH_SHELF_GAIN_DB,
        }
    }
}

} // verus!
