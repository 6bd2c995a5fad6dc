use vitalium_verb_dsp::fixed::FX_ONE;
use vitalium_verb_dsp::{Reverb, ReverbParams};

fn to_fx(x: f64) -> i64 {
    (x * FX_ONE as f64).round() as i64
}

fn to_f64(v: i64) -> f64 {
    v as f64 / FX_ONE as f64
}

fn sine_input(len: usize, freq_hz: f64, sample_rate: f64, amplitude: f64) -> Vec<i64> {
    let mut phasor: f64 = 0.0;
    let inc = freq_hz / sample_rate;
    (0..len)
        .map(|_| {
            let s = (phasor * std::f64::consts::TAU).sin() * amplitude;
            phasor = (phasor + inc).fract();
            to_fx(s)
        })
        .collect()
}

#[test]
fn sine_wave() {
    const AMPLITUDE: f64 = 0.25;
    const FREQ_HZ: f64 = 440.0;
    const BUFFER_LEN: usize = 256;
    const SAMPLE_RATE: f64 = 48_000.0;
    const ITERATIONS: usize = 16;

    let input = sine_input(BUFFER_LEN, FREQ_HZ, SAMPLE_RATE, AMPLITUDE);

    let mut reverb = Reverb::default();
    reverb.init(48_000);

    let params = ReverbParams { delay: 0, ..Default::default() };

    for _ in 0..ITERATIONS {
        println!("-------------------------------------------------");

        let mut out_l = input.clone();
        let mut out_r = input.clone();

        reverb.process(&mut out_l, &mut out_r, &params);

        // Make sure there is nothing obviously wrong with the samples.
        for v in out_l.iter().chain(out_r.iter()) {
            let s = to_f64(*v) as f32;
            assert!(s.is_finite());
            assert!(!s.is_nan());
            assert!(!s.is_subnormal());
            assert!(s.abs() <= 1.0);
        }
    }
}

#[test]
fn silent_input_long_decay() {
    // A single unit impulse, then silence: after the onset the tail's RMS
    // over 1024-sample windows never grows.
    let mut reverb = Reverb::default();
    reverb.init(48_000);
    let params = ReverbParams { decay: to_fx(10.0), ..Default::default() };

    let total = 48_000usize;
    let mut left = vec![0i64; total];
    let mut right = vec![0i64; total];
    left[0] = FX_ONE;
    right[0] = FX_ONE;
    reverb.process(&mut left, &mut right, &params);

    let window = 4096usize;
    let start = 9_600usize;  // 0.2 s at 48 kHz
    let mut first_rms = 0.0f64;
    let mut prev_rms = f64::MAX;
    let mut k = start;
    while k + window <= total {
        let mut acc = 0.0f64;
        for j in k..k + window {
            let s = to_f64(left[j]);
            acc += s * s;
        }
        let rms = (acc / window as f64).sqrt();
        if k == start {
            first_rms = rms;
        }
        // Monotone within the small averaging ripple the chorus leaves.
        assert!(
            rms <= prev_rms * 1.25 + 1e-6,
            "rms grew from {} to {} at sample {}",
            prev_rms,
            rms,
            k
        );
        prev_rms = rms;
        k += window;
    }
    // The envelope has decayed clearly over the measured second.
    assert!(first_rms > 0.0);
    assert!(prev_rms < first_rms * 0.9);
    assert!(prev_rms < 0.01);
}

#[test]
fn mix_zero_passthrough() {
    // After a 128-frame warm-up with the mix at zero, the output equals the
    // input exactly.
    let mut reverb = Reverb::default();
    reverb.init(48_000);
    let params = ReverbParams { mix: 0, ..Default::default() };

    let mut warm_l = sine_input(128, 330.0, 48_000.0, 0.5);
    let mut warm_r = warm_l.clone();
    reverb.process(&mut warm_l, &mut warm_r, &params);

    let input_l = sine_input(512, 440.0, 48_000.0, 0.9);
    let input_r = sine_input(512, 523.0, 48_000.0, 0.9);
    let mut out_l = input_l.clone();
    let mut out_r = input_r.clone();
    reverb.process(&mut out_l, &mut out_r, &params);
    assert_eq!(out_l, input_l);
    assert_eq!(out_r, input_r);
}

#[test]
fn width_collapses_to_mono() {
    // With the width settled at minus one, equal inputs give equal wet and
    // dry output on both channels.
    let mut reverb = Reverb::default();
    reverb.init(48_000);
    let params = ReverbParams { width: -FX_ONE, mix: FX_ONE, ..Default::default() };

    // One warm-up block lets the width ramp settle at zero.
    let mut warm_l = sine_input(128, 440.0, 48_000.0, 0.25);
    let mut warm_r = warm_l.clone();
    reverb.process(&mut warm_l, &mut warm_r, &params);

    for _ in 0..8 {
        let input = sine_input(256, 440.0, 48_000.0, 0.25);
        let mut out_l = input.clone();
        let mut out_r = input.clone();
        reverb.process(&mut out_l, &mut out_r, &params);
        for (a, b) in out_l.iter().zip(out_r.iter()) {
            assert!((to_f64(*a) - to_f64(*b)).abs() < 1e-5);
        }
    }
}

#[test]
fn mix_toggle_stays_smooth() {
    // Toggling the mix between zero and one once per block must ramp the
    // output, never jump: with a DC input and the network fed nothing (the
    // pre-filter band is empty), successive samples differ by at most the
    // per-sample share of the fade, 1/128, plus rounding.
    let mut reverb = Reverb::default();
    reverb.init(48_000);
    let mut params = ReverbParams {
        pre_low_cut_hz: to_fx(20.0),
        pre_high_cut_hz: to_fx(20.0),
        chorus_amount: 0,
        ..Default::default()
    };

    let mut last: f64 = 0.0;
    let mut first = true;
    for block in 0..16 {
        params.mix = if block % 2 == 0 { 0 } else { FX_ONE };
        let mut left = vec![FX_ONE; 128];
        let mut right = vec![FX_ONE; 128];
        reverb.process(&mut left, &mut right, &params);
        for v in left.iter() {
            let s = to_f64(*v);
            if !first {
                assert!(
                    (s - last).abs() <= 1.0 / 128.0 + 1e-4,
                    "jump of {} in the mix envelope",
                    (s - last).abs()
                );
            }
            first = false;
            last = s;
        }
    }
}

#[test]
fn double_init_restarts_cleanly() {
    // Re-initializing at a new sample rate produces the same output as a
    // fresh engine at that rate.
    let input = sine_input(256, 440.0, 48_000.0, 0.25);
    let params = ReverbParams::default();

    let mut a = Reverb::default();
    a.init(48_000);
    let mut l = input.clone();
    let mut r = input.clone();
    a.process(&mut l, &mut r, &params);
    a.init(44_100);
    let mut a_l = input.clone();
    let mut a_r = input.clone();
    a.process(&mut a_l, &mut a_r, &params);

    let mut b = Reverb::default();
    b.init(44_100);
    let mut b_l = input.clone();
    let mut b_r = input.clone();
    b.process(&mut b_l, &mut b_r, &params);

    assert_eq!(a_l, b_l);
    assert_eq!(a_r, b_r);
}

#[test]
fn reset_is_idempotent() {
    // One reset and two resets leave identical state: processing after them
    // gives bit-identical output.
    let input = sine_input(300, 440.0, 48_000.0, 0.25);
    let params = ReverbParams::default();

    let mut a = Reverb::default();
    a.init(48_000);
    let mut l = input.clone();
    let mut r = input.clone();
    a.process(&mut l, &mut r, &params);
    a.reset();
    let mut a_l = input.clone();
    let mut a_r = input.clone();
    a.process(&mut a_l, &mut a_r, &params);

    let mut b = Reverb::default();
    b.init(48_000);
    let mut l2 = input.clone();
    let mut r2 = input.clone();
    b.process(&mut l2, &mut r2, &params);
    b.reset();
    b.reset();
    let mut b_l = input.clone();
    let mut b_r = input.clone();
    b.process(&mut b_l, &mut b_r, &params);

    assert_eq!(a_l, b_l);
    assert_eq!(a_r, b_r);
}

#[test]
fn init_establishes_power_of_two_buffers() {
    fn pow2(x: usize) -> bool {
        x > 0 && x & (x - 1) == 0
    }
    for sr in [44_100u32, 48_000, 88_200, 96_000, 176_400, 192_000] {
        let mut reverb = Reverb::default();
        reverb.init(sr);
        assert!(pow2(reverb.max_feedback_size));
        assert!(pow2(reverb.allpass_size));
        assert!(pow2(reverb.stereo_memory.size));
        assert!(reverb.did_init);
    }
    let mut reverb = Reverb::default();
    reverb.init(48_000);
    assert_eq!(reverb.max_feedback_size, 65_536);
    assert_eq!(reverb.allpass_size, 8_192);
    assert_eq!(reverb.stereo_memory.size, 262_144);
}

#[test]
fn tail_samples_doubles_the_decay() {
    let mut reverb = Reverb::default();
    reverb.init(48_000);
    assert_eq!(reverb.tail_samples(FX_ONE), 96_000);
    assert_eq!(reverb.tail_samples(to_fx(0.5)), 48_000);
    assert_eq!(reverb.tail_samples(0), 0);
    assert_eq!(reverb.tail_samples(-FX_ONE), 0);
}
