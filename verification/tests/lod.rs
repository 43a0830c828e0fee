//! The fixed-point level-of-detail clamp: conversion from binary32
//! saturates to the representable range, and the bound sentinels behave.

use spirv_cross::msl::LodBase16;

#[test]
fn zero_converts_to_the_zero_sentinel() {
    assert_eq!(LodBase16::from_f32_bits(0.0f32.to_bits()), LodBase16::zero());
}

#[test]
fn sixteen_converts_to_the_max_sentinel() {
    assert_eq!(LodBase16::from_f32_bits(16.0f32.to_bits()), LodBase16::max());
}

#[test]
fn conversion_saturates_above_the_range() {
    assert_eq!(LodBase16::from_f32_bits(100.0f32.to_bits()), LodBase16::max());
    assert_eq!(LodBase16::from_f32_bits(f32::INFINITY.to_bits()), LodBase16::max());
}

#[test]
fn conversion_saturates_below_the_range() {
    assert_eq!(LodBase16::from_f32_bits((-1.0f32).to_bits()), LodBase16::zero());
    assert_eq!(LodBase16::from_f32_bits(f32::NEG_INFINITY.to_bits()), LodBase16::zero());
}

#[test]
fn an_undefined_value_reads_as_zero() {
    assert_eq!(LodBase16::from_f32_bits(f32::NAN.to_bits()), LodBase16::zero());
}

#[test]
fn conversion_counts_sixteenths_rounding_toward_zero() {
    assert_eq!(LodBase16::from_f32_bits(1.0f32.to_bits()).bits(), 16);
    assert_eq!(LodBase16::from_f32_bits(0.5f32.to_bits()).bits(), 8);
    assert_eq!(LodBase16::from_f32_bits(0.0625f32.to_bits()).bits(), 1);
    assert_eq!(LodBase16::from_f32_bits(2.75f32.to_bits()).bits(), 44);
    assert_eq!(LodBase16::from_f32_bits(15.9375f32.to_bits()).bits(), 255);
    // 0.03 * 16 = 0.48, rounded toward zero.
    assert_eq!(LodBase16::from_f32_bits(0.03f32.to_bits()).bits(), 0);
    // 15.99 * 16 = 255.84, rounded toward zero, still in range.
    assert_eq!(LodBase16::from_f32_bits(15.99f32.to_bits()).bits(), 255);
}

#[test]
fn conversion_back_to_binary32_is_exact() {
    for v in [0u8, 1, 2, 7, 8, 15, 16, 31, 100, 128, 200, 255] {
        let lod = LodBase16::from_bits(v);
        let back = f32::from_bits(lod.to_f32_bits());
        assert_eq!(back, v as f32 / 16.0);
    }
}

#[test]
fn round_trip_through_binary32_preserves_every_clamp() {
    for v in 0..=255u8 {
        let lod = LodBase16::from_bits(v);
        let bits = lod.to_f32_bits();
        assert_eq!(LodBase16::from_f32_bits(bits), lod);
    }
}
