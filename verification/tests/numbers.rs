use luascad::number::Number;
use luascad::number::Vector;
use luascad::number::INFINITY_BITS;
use luascad::number::NEG_INFINITY_BITS;
use luascad::number::SIGN_BIT;
use luascad::number::ZERO_BITS;

fn number_of(value: f64) -> Number {
    Number::from_bits(value.to_bits())
}

fn value_of(number: Number) -> f64 {
    f64::from_bits(number.to_bits())
}

#[test]
fn bits_round_trip() {
    for value in [0.0, -0.0, 1.0, -2.5, 1e10, f64::MAX, f64::MIN_POSITIVE, f64::INFINITY] {
        let number = number_of(value);
        assert_eq!(number.to_bits(), value.to_bits());
        assert_eq!(number.bits, value.to_bits());
        assert_eq!(value_of(number).to_bits(), value.to_bits());
    }
}

#[test]
fn zero_is_positive_zero() {
    assert_eq!(ZERO_BITS, 0.0f64.to_bits());
    assert_eq!(Number::zero().to_bits(), 0.0f64.to_bits());
    assert_eq!(value_of(Number::zero()), 0.0);
}

#[test]
fn sentinels_are_ten_to_the_tenth() {
    assert_eq!(INFINITY_BITS, 1e10f64.to_bits());
    assert_eq!(NEG_INFINITY_BITS, (-1e10f64).to_bits());
    assert_eq!(value_of(Number::infinity()), 1e10);
    assert_eq!(value_of(Number::neg_infinity()), -1e10);
    assert!(value_of(Number::infinity()).is_finite());
    assert!(value_of(Number::neg_infinity()).is_finite());
}

#[test]
fn sentinels_are_opposite() {
    assert_eq!(Number::infinity().negated(), Number::neg_infinity());
    assert_eq!(Number::neg_infinity().negated(), Number::infinity());
}

#[test]
fn negated_agrees_with_float_negation() {
    assert_eq!(SIGN_BIT, (-0.0f64).to_bits());
    let samples = [
        0.0,
        -0.0,
        1.0,
        -1.0,
        3.0,
        0.5,
        -2.25,
        1e10,
        -1e10,
        1e-310,
        f64::MAX,
        f64::MIN,
        f64::MIN_POSITIVE,
        f64::EPSILON,
        f64::INFINITY,
        f64::NEG_INFINITY,
        f64::NAN,
    ];
    for value in samples {
        assert_eq!(number_of(value).negated().to_bits(), (-value).to_bits());
    }
}

#[test]
fn negated_changes_the_number() {
    assert_ne!(number_of(3.0).negated(), number_of(3.0));
    assert_eq!(value_of(number_of(3.0).negated()), -3.0);
}

#[test]
fn negated_twice_is_identity() {
    for value in [0.0, 1.5, -7.0, 1e300, f64::NAN] {
        let number = number_of(value);
        assert_eq!(number.negated().negated(), number);
    }
}

#[test]
fn vector_keeps_its_components_in_order() {
    let v = Vector::new(number_of(1.0), number_of(2.0), number_of(3.0));
    assert_eq!(value_of(v.x), 1.0);
    assert_eq!(value_of(v.y), 2.0);
    assert_eq!(value_of(v.z), 3.0);
    assert_eq!(v, Vector { x: number_of(1.0), y: number_of(2.0), z: number_of(3.0) });
}

#[test]
fn non_negative_agrees_with_float_comparison() {
    let samples = [
        0.0,
        -0.0,
        1.0,
        -1.0,
        1e-320,
        -1e-320,
        f64::MIN_POSITIVE,
        -f64::MIN_POSITIVE,
        f64::MAX,
        f64::MIN,
        f64::INFINITY,
        f64::NEG_INFINITY,
        f64::NAN,
        -f64::NAN,
        f64::from_bits(0x7FF0_0000_0000_0001),
        f64::from_bits(0xFFF0_0000_0000_0001),
        f64::from_bits(0x7FFF_FFFF_FFFF_FFFF),
        f64::from_bits(0x8000_0000_0000_0001),
    ];
    for value in samples {
        assert_eq!(number_of(value).is_non_negative(), value >= 0.0, "{value:?}");
    }
}

#[test]
fn smoothing_defaults_are_non_negative() {
    assert!(Number::zero().is_non_negative());
    assert!(Number::infinity().is_non_negative());
    assert!(!Number::neg_infinity().is_non_negative());
}

#[test]
fn a_radius_is_the_number_or_zero() {
    for value in [0.0, 0.25, 1.0, 1e10, f64::MAX, f64::INFINITY] {
        assert_eq!(number_of(value).radius(), number_of(value));
    }
    assert_eq!(number_of(-0.0).radius(), number_of(-0.0));
    for value in [-0.25, -1.0, -1e-320, f64::MIN, f64::NEG_INFINITY, f64::NAN, -f64::NAN] {
        assert_eq!(number_of(value).radius(), number_of(0.0));
    }
}

#[test]
fn a_radius_is_never_negative() {
    let samples = [0.0, -0.0, 3.5, -3.5, f64::NAN, f64::INFINITY, f64::NEG_INFINITY];
    for value in samples {
        assert!(number_of(value).radius().is_non_negative());
        assert!(value_of(number_of(value).radius()) >= 0.0);
    }
}
