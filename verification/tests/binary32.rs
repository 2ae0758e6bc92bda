//! The encoding-level operations agree with the hardware `f32` operations.

use limbic_critic::binary32::{
    clamp_to, equal, infinite, less_than, nan, saturate_infinity, sign_negative, NEG_ONE, POS_ONE,
    POS_ZERO,
};
use limbic_critic::TDCritic;

fn xorshift(state: &mut u32) -> u32 {
    *state ^= *state << 13;
    *state ^= *state >> 17;
    *state ^= *state << 5;
    *state
}

fn samples() -> Vec<u32> {
    let mut v: Vec<u32> = vec![
        0.0f32.to_bits(),
        (-0.0f32).to_bits(),
        1.0f32.to_bits(),
        (-1.0f32).to_bits(),
        0.5f32.to_bits(),
        f32::MIN_POSITIVE.to_bits(),
        (-f32::MIN_POSITIVE).to_bits(),
        1,
        0x8000_0001,
        f32::MAX.to_bits(),
        f32::MIN.to_bits(),
        f32::INFINITY.to_bits(),
        f32::NEG_INFINITY.to_bits(),
        f32::NAN.to_bits(),
        0xFFC0_0001,
        0x7F80_0001,
        POS_ONE + 1,
        POS_ONE - 1,
        f32::EPSILON.to_bits(),
    ];
    let mut s: u32 = 0x1234_5678;
    for _ in 0..300 {
        v.push(xorshift(&mut s));
    }
    v
}

#[test]
fn classification_matches_hardware() {
    for b in samples() {
        let f = f32::from_bits(b);
        assert_eq!(nan(b), f.is_nan(), "{b:#x}");
        assert_eq!(infinite(b), f.is_infinite(), "{b:#x}");
        assert_eq!(sign_negative(b), f.is_sign_negative(), "{b:#x}");
    }
}

#[test]
fn less_than_matches_hardware() {
    let s = samples();
    for &a in &s {
        for &b in &s {
            assert_eq!(
                less_than(a, b),
                f32::from_bits(a) < f32::from_bits(b),
                "{a:#x} < {b:#x}"
            );
        }
    }
}

#[test]
fn clamp_matches_hardware() {
    for x in samples() {
        let f = f32::from_bits(x);
        assert_eq!(clamp_to(x, POS_ZERO, POS_ONE), f.clamp(0.0, 1.0).to_bits(), "{x:#x}");
        assert_eq!(clamp_to(x, NEG_ONE, POS_ONE), f.clamp(-1.0, 1.0).to_bits(), "{x:#x}");
    }
}

#[test]
fn clamp_keeps_negative_zero() {
    // `-0.0 < 0.0` is false, so f32::clamp returns -0.0 itself.
    assert_eq!(clamp_to((-0.0f32).to_bits(), POS_ZERO, POS_ONE), (-0.0f32).to_bits());
}

#[test]
fn saturation_matches_signum_times_max() {
    for x in samples() {
        let f = f32::from_bits(x);
        if f.is_nan() {
            assert_eq!(saturate_infinity(x), x);
        } else if f.is_infinite() {
            assert_eq!(saturate_infinity(x), (f.signum() * f32::MAX).to_bits());
        } else {
            assert_eq!(saturate_infinity(x), x);
        }
    }
}

#[test]
fn alpha_acceptance_matches_unit_interval() {
    for b in samples() {
        let f = f32::from_bits(b);
        assert_eq!(TDCritic::new(b).is_ok(), f > 0.0 && f <= 1.0, "{b:#x}");
    }
}

#[test]
fn equal_matches_hardware() {
    let s = samples();
    for &a in &s {
        for &b in &s {
            assert_eq!(
                equal(a, b),
                f32::from_bits(a) == f32::from_bits(b),
                "{a:#x} == {b:#x}"
            );
        }
    }
}
