use voice_direction_finder::spectral::{
    center_time_domain, centered_lag_numerator, filter_with_cfar, find_peak_index,
};

/// Integer encoding of an f32 sample that preserves order and equality and
/// encodes zero as zero, as the pipeline hands samples to the library; a
/// NaN encodes below every value and never compares above anything.
fn sample_code(x: f32) -> i64 {
    if x.is_nan() {
        return i64::MIN;
    }
    let bits = x.to_bits();
    if bits & 0x8000_0000 == 0 {
        bits as i64
    } else {
        -((bits & 0x7fff_ffff) as i64)
    }
}

#[test]
fn sample_code_preserves_order_and_zero() {
    assert_eq!(sample_code(0.0f32), 0);
    assert_eq!(sample_code(-0.0f32), 0);
    let xs: Vec<f32> = vec![-100.0, -3.5, -0.25, -0.0, 0.0, 0.1, 1.0, 2.5, 100.0];
    for &a in &xs {
        for &b in &xs {
            assert_eq!(a < b, sample_code(a) < sample_code(b));
            assert_eq!(a == b, sample_code(a) == sample_code(b));
        }
    }
}

#[test]
fn center_even_length_impulse() {
    // N = 8, unit impulse at index 5: after centering it sits at index 1,
    // and with a 0.1 s time resolution its label is (1 - 4) * 0.1 = -0.3 s.
    let mut v: Vec<i64> = vec![0; 8];
    v[5] = 1000;
    let c = center_time_domain(&v);
    assert_eq!(c.len(), 8);
    for i in 0..8 {
        assert_eq!(c[i], if i == 1 { 1000 } else { 0 });
    }
    let numerator = centered_lag_numerator(8, 1);
    assert_eq!(numerator, -6);
    let time = numerator as f64 * 0.1 / 2.0;
    assert!((time - (-0.3)).abs() < 1e-12);
}

#[test]
fn center_odd_length_split_sizes() {
    // N = 7: the front part has 4 samples, the back part 3, and the back
    // part moves to the front.
    let v: Vec<i64> = vec![10, 11, 12, 13, 14, 15, 16];
    let c = center_time_domain(&v);
    assert_eq!(c, vec![14, 15, 16, 10, 11, 12, 13]);
}

#[test]
fn center_middle_index_carries_lag_zero() {
    assert_eq!(centered_lag_numerator(8, 4), 0);
    assert_eq!(centered_lag_numerator(8, 0), -8);
    assert_eq!(centered_lag_numerator(8, 7), 6);
    // Odd length: half-step labels, still zero nowhere but between indices.
    assert_eq!(centered_lag_numerator(7, 3), -1);
    assert_eq!(centered_lag_numerator(7, 4), 1);
}

#[test]
fn find_peak_none_when_range_reaches_past_end() {
    let v: Vec<i64> = vec![1, 2, 3, 4];
    assert_eq!(find_peak_index(1, 7, &v), None);
    assert_eq!(find_peak_index(4, 4, &v), None);
}

#[test]
fn find_peak_first_maximum_wins() {
    let v: Vec<i64> = vec![-3, 10, 2, 10];
    assert_eq!(find_peak_index(0, 3, &v), Some(1));
}

#[test]
fn find_peak_floor_keeps_lower_bound() {
    // No value above the zero floor: the scan never moves off min_ind.
    let v: Vec<i64> = vec![-5, -1, -2, 0];
    assert_eq!(find_peak_index(1, 3, &v), Some(1));
}

#[test]
fn find_peak_empty_range_yields_lower_bound() {
    let v: Vec<i64> = vec![1, 2];
    assert_eq!(find_peak_index(5, 2, &v), Some(5));
}

#[test]
fn filter_keeps_only_values_above_threshold() {
    let mag: Vec<i64> = vec![5, 1, 7, -2];
    let thr: Vec<i64> = vec![3, 2, 7, -4];
    assert_eq!(filter_with_cfar(&mag, &thr), vec![5, 0, 0, -2]);
}

#[test]
fn filter_on_encoded_samples() {
    let mag_f: Vec<f32> = vec![12.5, 0.5, -3.0];
    let thr_f: Vec<f32> = vec![4.0, 1.5, -7.0];
    let mag: Vec<i64> = mag_f.iter().map(|&x| sample_code(x)).collect();
    let thr: Vec<i64> = thr_f.iter().map(|&x| sample_code(x)).collect();
    let out = filter_with_cfar(&mag, &thr);
    assert_eq!(out[0], sample_code(12.5));
    assert_eq!(out[1], 0);
    assert_eq!(out[2], sample_code(-3.0));
}
