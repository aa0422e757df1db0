//! Fixed-point arithmetic and trigonometry behave as stated.

use term3d::fixed::{Fx, FX_MAX_BITS, FX_ONE_BITS};
use term3d::trig::{cos_fx, sin_fx, HALF_PI_BITS, PI_BITS, TWO_PI_BITS};

#[test]
fn from_int_scales_by_one_unit() {
    assert_eq!(Fx::from_int(0).bits(), 0);
    assert_eq!(Fx::from_int(1).bits(), 65536);
    assert_eq!(Fx::from_int(-3).bits(), -196608);
    assert_eq!(Fx::one().bits(), FX_ONE_BITS);
    assert_eq!(Fx::zero().bits(), 0);
}

#[test]
fn from_bits_saturates_at_the_range_limit() {
    assert_eq!(Fx::from_bits(i64::MAX).bits(), FX_MAX_BITS);
    assert_eq!(Fx::from_bits(i64::MIN).bits(), -FX_MAX_BITS);
    assert_eq!(Fx::from_bits(123456).bits(), 123456);
}

#[test]
fn addition_and_subtraction_are_exact_in_range() {
    let a = Fx::from_int(3);
    let b = Fx::from_int(5);
    assert_eq!(a.add(b).bits(), 8 * 65536);
    assert_eq!(a.sub(b).bits(), -2 * 65536);
    assert_eq!(b.neg().bits(), -5 * 65536);
}

#[test]
fn addition_saturates_instead_of_wrapping() {
    let big = Fx::from_bits(FX_MAX_BITS);
    assert_eq!(big.add(big).bits(), FX_MAX_BITS);
    let small = Fx::from_bits(-FX_MAX_BITS);
    assert_eq!(small.add(small).bits(), -FX_MAX_BITS);
}

#[test]
fn multiplication_truncates_toward_zero() {
    let half = Fx::from_bits(32768);
    let three = Fx::from_int(3);
    assert_eq!(half.mul(three).bits(), 98304); // 1.5
    // 0.5 * 0.5 = 0.25 exactly
    assert_eq!(half.mul(half).bits(), 16384);
    // (-1/65536) * (1/65536) truncates toward zero, to zero
    assert_eq!(Fx::from_bits(-1).mul(Fx::from_bits(1)).bits(), 0);
}

#[test]
fn division_matches_scaled_truncating_quotient() {
    let one = Fx::one();
    let three = Fx::from_int(3);
    // 1/3 in scale units: floor(65536*65536 / 196608) = 21845
    assert_eq!(one.div(three).bits(), 21845);
    assert_eq!(one.neg().div(three).bits(), -21845);
}

#[test]
fn division_by_zero_saturates_by_numerator_sign() {
    let z = Fx::zero();
    assert_eq!(Fx::from_int(7).div(z).bits(), FX_MAX_BITS);
    assert_eq!(Fx::from_int(-7).div(z).bits(), -FX_MAX_BITS);
    assert_eq!(z.div(z).bits(), FX_MAX_BITS);
}

#[test]
fn sine_and_cosine_are_exact_at_zero() {
    assert_eq!(sin_fx(Fx::zero()).bits(), 0);
    assert_eq!(cos_fx(Fx::zero()).bits(), 65536);
}

#[test]
fn sine_and_cosine_track_the_real_functions() {
    // Sample angles across several turns; the polynomial plus the
    // constant rounding keeps the error within a few scale units.
    let samples: Vec<i64> = vec![
        1000, 20000, 51472, 102944, 150000, 205887, 300000, 411775, 500000, 800000, -51472,
        -300000,
    ];
    for &bits in &samples {
        let a = (bits as f64) / 65536.0;
        let s = sin_fx(Fx::from_bits(bits)).bits() as f64 / 65536.0;
        let c = cos_fx(Fx::from_bits(bits)).bits() as f64 / 65536.0;
        assert!(
            (s - a.sin()).abs() < 0.002,
            "sin({}) = {} vs {}",
            a,
            s,
            a.sin()
        );
        assert!(
            (c - a.cos()).abs() < 0.002,
            "cos({}) = {} vs {}",
            a,
            c,
            a.cos()
        );
    }
}

#[test]
fn quadrant_constants_are_consistent() {
    assert_eq!(2 * HALF_PI_BITS, PI_BITS + 1);
    assert_eq!(TWO_PI_BITS, 2 * PI_BITS + 1);
    // pi in scale units, within one unit of the real value
    assert!((PI_BITS as f64 - std::f64::consts::PI * 65536.0).abs() < 1.0);
}

#[test]
fn sine_is_odd_and_cosine_is_even() {
    for &bits in &[5000i64, 123456, 300000] {
        let a = Fx::from_bits(bits);
        let na = Fx::from_bits(-bits);
        assert_eq!(sin_fx(a).bits(), -sin_fx(na).bits());
        assert_eq!(cos_fx(a).bits(), cos_fx(na).bits());
    }
}
