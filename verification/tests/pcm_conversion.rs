//! Tests of the saturating sample conversion.
use altjtalk::sample::{clamp_sample, convert_samples};

/// The conversion the synthesis pipeline owes: saturating clamp, then the
/// truncation of an in-range value toward zero.
fn reference(d: f64) -> i16 {
    if d < (i16::MIN as f64) {
        i16::MIN
    } else if d > (i16::MAX as f64) {
        i16::MAX
    } else {
        d as i16
    }
}

#[test]
fn example_buffer_clamps_and_truncates() {
    let raw: Vec<u64> = [40000.0f64, -40000.0, 123.7, -123.7]
        .iter()
        .map(|d| d.to_bits())
        .collect();
    let out = convert_samples(&raw);
    assert_eq!(out, vec![32767, -32768, 123, -123]);
}

#[test]
fn values_above_the_maximum_saturate() {
    assert_eq!(clamp_sample(32768.0f64.to_bits()), 32767);
    assert_eq!(clamp_sample(32767.5f64.to_bits()), 32767);
    assert_eq!(clamp_sample(65535.9f64.to_bits()), 32767);
    assert_eq!(clamp_sample(1.0e300f64.to_bits()), 32767);
    assert_eq!(clamp_sample(f64::INFINITY.to_bits()), 32767);
    assert_eq!(clamp_sample(f64::MAX.to_bits()), 32767);
}

#[test]
fn values_below_the_minimum_saturate() {
    assert_eq!(clamp_sample((-32769.0f64).to_bits()), -32768);
    assert_eq!(clamp_sample((-32768.5f64).to_bits()), -32768);
    assert_eq!(clamp_sample((-1.0e300f64).to_bits()), -32768);
    assert_eq!(clamp_sample(f64::NEG_INFINITY.to_bits()), -32768);
    assert_eq!(clamp_sample(f64::MIN.to_bits()), -32768);
}

#[test]
fn in_range_values_truncate_toward_zero() {
    assert_eq!(clamp_sample(0.0f64.to_bits()), 0);
    assert_eq!(clamp_sample((-0.0f64).to_bits()), 0);
    assert_eq!(clamp_sample(0.999f64.to_bits()), 0);
    assert_eq!(clamp_sample((-0.999f64).to_bits()), 0);
    assert_eq!(clamp_sample(1.0f64.to_bits()), 1);
    assert_eq!(clamp_sample((-1.0f64).to_bits()), -1);
    assert_eq!(clamp_sample(123.7f64.to_bits()), 123);
    assert_eq!(clamp_sample((-123.7f64).to_bits()), -123);
    assert_eq!(clamp_sample(32766.9f64.to_bits()), 32766);
    assert_eq!(clamp_sample(32767.0f64.to_bits()), 32767);
    assert_eq!(clamp_sample((-32767.9f64).to_bits()), -32767);
    assert_eq!(clamp_sample((-32768.0f64).to_bits()), -32768);
    assert_eq!(clamp_sample(5.0e-324f64.to_bits()), 0);
    assert_eq!(clamp_sample((-5.0e-324f64).to_bits()), 0);
    assert_eq!(clamp_sample(f64::MIN_POSITIVE.to_bits()), 0);
}

#[test]
fn nan_converts_to_zero() {
    assert_eq!(clamp_sample(f64::NAN.to_bits()), 0);
    assert_eq!(clamp_sample((-f64::NAN).to_bits()), 0);
}

#[test]
fn conversion_matches_the_reference_on_a_sweep() {
    let mut d = -70000.0f64;
    while d < 70000.0 {
        assert_eq!(clamp_sample(d.to_bits()), reference(d), "at {}", d);
        d += 0.37;
    }
    let specials: [f64; 9] = [
        0.5, -0.5, 1.5, -1.5, 32767.999, -32768.001, 1.0e-10, 7.77e8, -7.77e8,
    ];
    for d in specials {
        assert_eq!(clamp_sample(d.to_bits()), reference(d), "at {}", d);
    }
}

#[test]
fn conversion_keeps_length_and_order() {
    let raw: Vec<u64> = [1.0f64, 2.9, -3.9, 4.2].iter().map(|d| d.to_bits()).collect();
    let out = convert_samples(&raw);
    assert_eq!(out, vec![1, 2, -3, 4]);
    let empty: Vec<u64> = Vec::new();
    assert_eq!(convert_samples(&empty), Vec::<i16>::new());
}
