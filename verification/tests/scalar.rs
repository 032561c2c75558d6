use ui_overlay::scalar::{
    Scalar, FIVE_BITS, INFINITY_BITS, NEGATIVE_ZERO_BITS, ONE_BITS, POSITIVE_ZERO_BITS,
    TWENTY_BITS,
};

#[test]
fn named_encodings_are_the_numbers_they_name() {
    assert_eq!(f32::from_bits(POSITIVE_ZERO_BITS), 0.0);
    assert!(f32::from_bits(POSITIVE_ZERO_BITS).is_sign_positive());
    assert_eq!(f32::from_bits(NEGATIVE_ZERO_BITS), 0.0);
    assert!(f32::from_bits(NEGATIVE_ZERO_BITS).is_sign_negative());
    assert_eq!(f32::from_bits(ONE_BITS), 1.0);
    assert_eq!(f32::from_bits(FIVE_BITS), 5.0);
    assert_eq!(f32::from_bits(TWENTY_BITS), 20.0);
    assert_eq!(f32::from_bits(INFINITY_BITS), f32::INFINITY);
}

#[test]
fn bits_round_trip() {
    for value in [0.0f32, -0.0, 1.0, 0.5, -3.25, f32::MAX, f32::MIN_POSITIVE, f32::INFINITY] {
        let s = Scalar::from_bits(value.to_bits());
        assert_eq!(s.bits, value.to_bits());
        assert_eq!(s.to_bits(), value.to_bits());
        assert_eq!(f32::from_bits(s.to_bits()), value);
    }
}

#[test]
fn zero_is_positive_zero() {
    assert_eq!(Scalar::zero().bits, 0);
    assert!(Scalar::zero().is_zero());
}

#[test]
fn is_zero_agrees_with_comparison_to_zero() {
    let samples = [
        0.0f32,
        -0.0,
        1.0,
        -1.0,
        0.5,
        1e-45,
        -1e-45,
        f32::MIN_POSITIVE,
        f32::MAX,
        f32::MIN,
        f32::INFINITY,
        f32::NEG_INFINITY,
        f32::NAN,
        f32::EPSILON,
    ];
    for value in samples {
        let s = Scalar::from_bits(value.to_bits());
        assert_eq!(s.is_zero(), value == 0.0, "{value}");
    }
}

#[test]
fn is_zero_over_a_sweep_of_encodings() {
    let mut bits: u32 = 0;
    loop {
        let value = f32::from_bits(bits);
        assert_eq!(Scalar::from_bits(bits).is_zero(), value == 0.0);
        match bits.checked_add(0x0001_0001) {
            Some(next) => bits = next,
            None => break,
        }
    }
}
