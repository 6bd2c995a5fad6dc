use vitalium_verb_dsp::approx::{cos2pi, exp2_fx, sin2pi, tan_fx, FX_QUARTER, FX_THREE_QUARTER};
use vitalium_verb_dsp::fixed::{fx_add, fx_div, fx_floor, fx_mul, fx_sub, FX_ONE, FX_SAT};
use vitalium_verb_dsp::matrix::Matrix;
use vitalium_verb_dsp::one_pole_filter::OnePoleFilter;
use vitalium_verb_dsp::poly_utils::{swap_stereo_x4, swap_voices_x4, Fix4};
use vitalium_verb_dsp::stereo_memory::StereoMemory;
use vitalium_verb_dsp::utils::{db_to_amplitude, equal_power_fade, equal_power_fade_inverse};
use vitalium_verb_dsp::ReverbParams;

fn to_fx(x: f64) -> i64 {
    (x * FX_ONE as f64).round() as i64
}

fn to_f64(v: i64) -> f64 {
    v as f64 / FX_ONE as f64
}

#[test]
fn fixed_arithmetic_is_exact() {
    assert_eq!(fx_add(to_fx(1.5), to_fx(2.25)), to_fx(3.75));
    assert_eq!(fx_sub(to_fx(1.0), to_fx(2.5)), to_fx(-1.5));
    assert_eq!(fx_mul(to_fx(2.0), to_fx(3.0)), to_fx(6.0));
    assert_eq!(fx_mul(to_fx(-2.0), to_fx(3.0)), to_fx(-6.0));
    assert_eq!(fx_mul(12345, FX_ONE), 12345);
    assert_eq!(fx_mul(0, 987654321), 0);
    assert_eq!(fx_div(to_fx(6.0), to_fx(3.0)), to_fx(2.0));
    assert_eq!(fx_floor(to_fx(2.75)), 2);
    assert_eq!(fx_floor(to_fx(-2.25)), -3);
    // Saturation instead of overflow.
    assert_eq!(fx_add(FX_SAT, FX_SAT), FX_SAT);
    assert_eq!(fx_sub(-FX_SAT, FX_SAT), -FX_SAT);
    assert_eq!(fx_mul(FX_SAT, FX_SAT), FX_SAT);
}

#[test]
fn cosine_hits_the_quarter_points_exactly() {
    assert_eq!(cos2pi(0), FX_ONE);
    assert_eq!(cos2pi(FX_QUARTER), 0);
    assert_eq!(cos2pi(2 * FX_QUARTER), -FX_ONE);
    assert_eq!(cos2pi(FX_THREE_QUARTER), 0);
    assert_eq!(sin2pi(0), 0);
    assert_eq!(sin2pi(FX_QUARTER), FX_ONE);
    // An interior point, against the real cosine.
    let t = to_fx(0.1);
    assert!((to_f64(cos2pi(t)) - (0.2f64 * std::f64::consts::PI).cos()).abs() < 1e-4);
    assert!((to_f64(sin2pi(t)) - (0.2f64 * std::f64::consts::PI).sin()).abs() < 1e-4);
}

#[test]
fn exponential_and_tangent_match_their_series() {
    assert_eq!(exp2_fx(0), FX_ONE);
    assert!((to_f64(exp2_fx(FX_ONE)) - 2.0).abs() < 1e-4);
    assert!((to_f64(exp2_fx(-FX_ONE)) - 0.5).abs() < 1e-4);
    assert!((to_f64(exp2_fx(to_fx(-9.965784))) - 0.001).abs() < 1e-5);
    assert_eq!(tan_fx(0), 0);
    assert!((to_f64(tan_fx(to_fx(0.5))) - 0.5f64.tan()).abs() < 1e-3);
}

#[test]
fn equal_power_fades_cross_at_the_endpoints() {
    assert_eq!(equal_power_fade(0), FX_ONE);
    assert_eq!(equal_power_fade(FX_ONE), 0);
    assert_eq!(equal_power_fade_inverse(0), 0);
    assert_eq!(equal_power_fade_inverse(FX_ONE), FX_ONE);
    let mid = to_fx(0.5);
    assert!((to_f64(equal_power_fade(mid)) - 0.5f64.sqrt()).abs() < 1e-4);
    assert!((to_f64(equal_power_fade_inverse(mid)) - 0.5f64.sqrt()).abs() < 1e-4);
    assert_eq!(db_to_amplitude(0), FX_ONE);
    assert!((to_f64(db_to_amplitude(to_fx(-6.0))) - 0.501187).abs() < 1e-3);
}

#[test]
fn transpose_is_its_own_inverse() {
    let m = Matrix {
        rows: [
            Fix4 { l0: 1, l1: 2, l2: 3, l3: 4 },
            Fix4 { l0: 5, l1: 6, l2: 7, l3: 8 },
            Fix4 { l0: 9, l1: 10, l2: 11, l3: 12 },
            Fix4 { l0: 13, l1: 14, l2: 15, l3: 16 },
        ],
    };
    let mut t = m;
    t.transpose();
    assert_eq!(t.rows[0].l1, 5);
    assert_eq!(t.rows[3].l0, 4);
    t.transpose();
    for k in 0..4 {
        assert_eq!(t.rows[k].l0, m.rows[k].l0);
        assert_eq!(t.rows[k].l1, m.rows[k].l1);
        assert_eq!(t.rows[k].l2, m.rows[k].l2);
        assert_eq!(t.rows[k].l3, m.rows[k].l3);
    }
}

#[test]
fn interpolation_kernels_select_the_sample_at_integer_positions() {
    // At fractional position zero both kernels weight only the current
    // sample, exactly.
    let t = Fix4 { l0: 0, l1: 0, l2: 0, l3: 0 };
    let p = Matrix::polynomial_interpolation_matrix(t);
    assert_eq!(p.rows[0].l0, 0);
    assert_eq!(p.rows[1].l0, FX_ONE);
    assert_eq!(p.rows[2].l0, 0);
    assert_eq!(p.rows[3].l0, 0);
    let c = Matrix::catmull_interpolation_matrix(t);
    assert_eq!(c.rows[0].l0, 0);
    assert_eq!(c.rows[1].l0, FX_ONE);
    assert_eq!(c.rows[2].l0, 0);
    assert_eq!(c.rows[3].l0, 0);
}

#[test]
fn kernel_weighting_reduces_rows() {
    let w = Matrix {
        rows: [
            Fix4 { l0: FX_ONE, l1: 0, l2: 0, l3: 0 },
            Fix4 { l0: 0, l1: FX_ONE, l2: 0, l3: 0 },
            Fix4 { l0: 0, l1: 0, l2: FX_ONE, l3: 0 },
            Fix4 { l0: 0, l1: 0, l2: 0, l3: FX_ONE },
        ],
    };
    let v = Matrix {
        rows: [
            Fix4 { l0: 10, l1: 20, l2: 30, l3: 40 },
            Fix4 { l0: 50, l1: 60, l2: 70, l3: 80 },
            Fix4 { l0: 90, l1: 100, l2: 110, l3: 120 },
            Fix4 { l0: 130, l1: 140, l2: 150, l3: 160 },
        ],
    };
    let r = w.multiply_and_sum_rows(&v);
    assert_eq!((r.l0, r.l1, r.l2, r.l3), (10, 60, 110, 160));
    let s = v.sum_rows();
    assert_eq!((s.l0, s.l1, s.l2, s.l3), (280, 320, 360, 400));
}

#[test]
fn swizzles_reorder_lanes() {
    let a = Fix4 { l0: 1, l1: 2, l2: 3, l3: 4 };
    let v = swap_voices_x4(a);
    assert_eq!((v.l0, v.l1, v.l2, v.l3), (3, 4, 1, 2));
    let s = swap_stereo_x4(a);
    assert_eq!((s.l0, s.l1, s.l2, s.l3), (2, 1, 4, 3));
}

#[test]
fn one_pole_double_steps_its_state() {
    let mut f = OnePoleFilter::new();
    let x = Fix4 { l0: FX_ONE, l1: FX_ONE, l2: FX_ONE, l3: FX_ONE };
    let coeff = Fix4 { l0: to_fx(0.5), l1: to_fx(0.5), l2: to_fx(0.5), l3: to_fx(0.5) };
    let y = f.tick(x, coeff);
    // delta = 0.5, output is the midpoint 0.5, the inner state ends at 1.0.
    assert_eq!(y.l0, to_fx(0.5));
    let y2 = f.tick(x, coeff);
    // delta = 0, so the filter has settled.
    assert_eq!(y2.l0, FX_ONE);
    f.reset();
    let y3 = f.tick(Fix4 { l0: 0, l1: 0, l2: 0, l3: 0 }, coeff);
    assert_eq!(y3.l0, 0);
}

#[test]
fn one_pole_coefficient_matches_the_warped_tangent() {
    let cutoff = Fix4 {
        l0: to_fx(20000.0),
        l1: to_fx(20000.0),
        l2: to_fx(20000.0),
        l3: to_fx(20000.0),
    };
    let sr = Fix4 {
        l0: to_fx(44100.0),
        l1: to_fx(44100.0),
        l2: to_fx(44100.0),
        l3: to_fx(44100.0),
    };
    let c = OnePoleFilter::compute_coeff(cutoff, sr);
    let phi = 20000.0 * std::f64::consts::PI / 44100.0;
    let expected = (phi / (phi + 1.0)).tan();
    assert!((to_f64(c.l0) - expected).abs() < 1e-3);
}

#[test]
fn stereo_memory_mirrors_every_push() {
    let mut m = StereoMemory::new(100);
    assert_eq!(m.size, 128);
    assert_eq!(m.left.len(), 256);
    // Pushing the same sample repeatedly lands it at both doubled positions
    // every time.
    for k in 0..130 {
        m.push(Fix4 { l0: 7000 + k, l1: -(7000 + k), l2: 0, l3: 0 });
        let off = m.offset;
        assert_eq!(m.left[off], 7000 + k);
        assert_eq!(m.left[off + m.size], 7000 + k);
        assert_eq!(m.right[off], -(7000 + k));
        assert_eq!(m.right[off + m.size], -(7000 + k));
    }
    m.clear();
    assert!(m.left.iter().all(|&v| v == 0));
    assert!(m.right.iter().all(|&v| v == 0));
}

#[test]
fn stereo_memory_reads_back_a_pushed_sample() {
    let mut m = StereoMemory::new(64);
    m.push(Fix4 { l0: to_fx(0.5), l1: to_fx(-0.5), l2: 0, l3: 0 });
    for _ in 0..3 {
        m.push(Fix4 { l0: 0, l1: 0, l2: 0, l3: 0 });
    }
    // The sample sits three steps in the past; an integer-delay read puts
    // the whole Catmull-Rom weight on it.
    let past = Fix4 { l0: 3 * FX_ONE, l1: 3 * FX_ONE, l2: 3 * FX_ONE, l3: 3 * FX_ONE };
    let r = m.get_interpolated(past);
    assert!((to_f64(r.l0) - 0.5).abs() < 1e-5);
    assert!((to_f64(r.l1) + 0.5).abs() < 1e-5);
}

#[test]
fn params_default_matches_the_documented_values() {
    let p = ReverbParams::default();
    assert_eq!(p.mix, to_fx(0.25));
    assert_eq!(p.size, to_fx(0.5));
    assert_eq!(p.decay, FX_ONE);
    assert_eq!(p.delay, ReverbParams::DEFAULT_DELAY_SECONDS);
    assert_eq!(p.width, ReverbParams::DEFAULT_WIDTH);
    assert_eq!(p.chorus_freq_hz, to_fx(0.25));
    assert_eq!(p.chorus_amount, ReverbParams::DEFAULT_CHORUS_AMOUNT);
    assert_eq!(p.pre_low_cut_hz, to_fx(20.0));
    assert_eq!(p.pre_high_cut_hz, to_fx(4700.0));
    assert_eq!(p.low_shelf_cut_hz, to_fx(20.0));
    assert_eq!(p.low_shelf_gain_db, 0);
    assert_eq!(p.high_shelf_cut_hz, to_fx(1480.0));
    assert_eq!(p.high_shelf_gain_db, to_fx(-1.0));
}
