use raytracer::color::{clamp_channel, ONE_32, ZERO_32};

fn c(v: f32) -> f32 {
    f32::from_bits(clamp_channel(v.to_bits()))
}

#[test]
fn channel_constants_are_zero_and_one() {
    assert_eq!(ZERO_32, 0.0f32.to_bits());
    assert_eq!(ONE_32, 1.0f32.to_bits());
}

#[test]
fn channel_inside_range_is_kept() {
    assert_eq!(c(0.0), 0.0);
    assert_eq!(c(0.25), 0.25);
    assert_eq!(c(1.0), 1.0);
    assert_eq!(c(-0.0).to_bits(), (-0.0f32).to_bits());
}

#[test]
fn channel_above_one_saturates() {
    assert_eq!(c(1.5), 1.0);
    assert_eq!(c(1.0000001), 1.0);
    assert_eq!(c(f32::INFINITY), 1.0);
}

#[test]
fn channel_below_zero_saturates() {
    assert_eq!(c(-0.5), 0.0);
    assert_eq!(c(-1e-30), 0.0);
    assert_eq!(c(f32::NEG_INFINITY), 0.0);
}

#[test]
fn channel_nan_stays_nan() {
    assert!(c(f32::NAN).is_nan());
}

#[test]
fn clamping_twice_is_clamping_once() {
    for v in [-2.0f32, -0.0, 0.3, 1.0, 7.5] {
        assert_eq!(c(c(v)).to_bits(), c(v).to_bits());
    }
}
