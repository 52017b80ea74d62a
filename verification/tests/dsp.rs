use bladerf_power::dsp::{
    normalize_sc16_q11, push_normalize_sc16_q11, sample_to_power, NormalizedSample, Q11, Q11_ONE,
    Q22_ONE, SAMPLE_MAX, SAMPLE_MIN,
};

fn as_real(value: Q11) -> f64 {
    f64::from(value.raw) / f64::from(Q11_ONE)
}

fn sample(i: i16, q: i16) -> NormalizedSample {
    NormalizedSample { i: Q11 { raw: i }, q: Q11 { raw: q } }
}

#[test]
fn normalize_lowest_sample_is_minus_one() {
    let v = normalize_sc16_q11(-2048);
    assert_eq!(v, Q11 { raw: -2048 });
    assert_eq!(as_real(v), -1.0);
}

#[test]
fn normalize_zero_is_zero() {
    let v = normalize_sc16_q11(0);
    assert_eq!(v.raw, 0);
    assert_eq!(as_real(v), 0.0);
}

#[test]
fn normalize_highest_sample_is_just_below_one() {
    let v = normalize_sc16_q11(2047);
    assert_eq!(v.raw, 2047);
    assert_eq!(as_real(v), 2047.0 / 2048.0);
    assert_eq!(as_real(v), 0.99951171875);
}

#[test]
fn normalize_is_not_the_identity_on_reals() {
    assert_eq!(as_real(normalize_sc16_q11(1024)), 0.5);
    assert_eq!(as_real(normalize_sc16_q11(-512)), -0.25);
    assert_eq!(as_real(normalize_sc16_q11(1)), 1.0 / 2048.0);
}

#[test]
fn normalize_maps_the_whole_range_into_the_unit_interval() {
    let mut s = SAMPLE_MIN;
    loop {
        let v = normalize_sc16_q11(s);
        assert!(v.is_normalized());
        assert!(as_real(v) >= -1.0);
        assert!(as_real(v) < 1.0);
        assert_eq!(as_real(v), f64::from(s) / 2048.0);
        if s == SAMPLE_MAX {
            break;
        }
        s += 1;
    }
}

#[test]
fn normalize_is_strictly_monotonic() {
    let mut s = SAMPLE_MIN;
    while s < SAMPLE_MAX {
        let lower = normalize_sc16_q11(s);
        let upper = normalize_sc16_q11(s + 1);
        assert!(lower.raw < upper.raw);
        assert!(as_real(lower) < as_real(upper));
        s += 1;
    }
}

#[test]
fn normalize_outside_the_range_is_exact_but_not_normalized() {
    assert_eq!(normalize_sc16_q11(2048).raw, 2048);
    assert!(!normalize_sc16_q11(2048).is_normalized());
    assert!(!normalize_sc16_q11(-2049).is_normalized());
    assert!(!normalize_sc16_q11(i16::MAX).is_normalized());
    assert!(!normalize_sc16_q11(i16::MIN).is_normalized());
    assert_eq!(as_real(normalize_sc16_q11(i16::MIN)), -16.0);
}

#[test]
fn push_normalize_pairs_in_order() {
    let mut out: Vec<NormalizedSample> = Vec::new();
    push_normalize_sc16_q11(&[1, 2, 3, 4, -2048, 2047], &mut out);
    assert_eq!(out, vec![sample(1, 2), sample(3, 4), sample(-2048, 2047)]);
}

#[test]
fn push_normalize_gives_half_as_many_samples() {
    let raw: Vec<i16> = (0..2000).map(|k| (k % 4096 - 2048) as i16).collect();
    let mut out: Vec<NormalizedSample> = Vec::new();
    push_normalize_sc16_q11(&raw, &mut out);
    assert_eq!(out.len(), 1000);
    for (k, s) in out.iter().enumerate() {
        assert_eq!(s.i.raw, raw[2 * k]);
        assert_eq!(s.q.raw, raw[2 * k + 1]);
    }
}

#[test]
fn push_normalize_appends_behind_what_is_there() {
    let mut out = vec![sample(7, 8)];
    push_normalize_sc16_q11(&[10, 20], &mut out);
    push_normalize_sc16_q11(&[30, 40, 50, 60], &mut out);
    assert_eq!(out, vec![sample(7, 8), sample(10, 20), sample(30, 40), sample(50, 60)]);
}

#[test]
fn push_normalize_of_nothing_changes_nothing() {
    let mut out = vec![sample(7, 8)];
    push_normalize_sc16_q11(&[], &mut out);
    assert_eq!(out, vec![sample(7, 8)]);
}

#[test]
fn push_normalize_after_clear_reuses_the_buffer() {
    let mut out: Vec<NormalizedSample> = Vec::with_capacity(4);
    push_normalize_sc16_q11(&[1, 2, 3, 4], &mut out);
    out.clear();
    push_normalize_sc16_q11(&[5, 6], &mut out);
    assert_eq!(out, vec![sample(5, 6)]);
}

#[test]
fn power_is_sum_of_squares() {
    assert_eq!(sample_to_power(&sample(3, 4)), 25);
    assert_eq!(sample_to_power(&sample(-3, 4)), 25);
    assert_eq!(sample_to_power(&sample(1024, 0)), 1024 * 1024);
    let p = sample_to_power(&sample(1024, -1024));
    assert_eq!(f64::from(p) / f64::from(Q22_ONE), 0.5);
}

#[test]
fn power_of_zero_sample_is_zero() {
    let p = sample_to_power(&sample(0, 0));
    assert_eq!(p, 0);
    let real = f64::from(p) / f64::from(Q22_ONE);
    assert_eq!(10.0 * real.log(10.0), f64::NEG_INFINITY);
}

#[test]
fn power_at_the_corners() {
    assert_eq!(sample_to_power(&sample(-2048, -2048)), 2 * Q22_ONE);
    assert_eq!(sample_to_power(&sample(2047, 2047)), 2 * 2047 * 2047);
    assert_eq!(sample_to_power(&sample(i16::MIN, i16::MIN)), 2147483648);
    assert_eq!(sample_to_power(&sample(i16::MAX, i16::MIN)), 32767 * 32767 + 32768 * 32768);
}

#[test]
fn power_agrees_with_floating_point() {
    for &(i, q) in &[(0i16, 1i16), (5, -7), (2047, -2048), (-1, -1), (100, 2000)] {
        let re = f64::from(i) / 2048.0;
        let im = f64::from(q) / 2048.0;
        let p = sample_to_power(&sample(i, q));
        assert_eq!(f64::from(p) / f64::from(Q22_ONE), re * re + im * im);
    }
}
