use video_engine::binary64::{
    Binary64, INFINITY_BITS, MINUS_ONE_BITS, ONE_BITS, SIGN_BIT, THREE_BITS, TWO_BITS, ZERO_BITS,
};

fn b(x: f64) -> Binary64 {
    Binary64::from_bits(x.to_bits())
}

fn f(x: Binary64) -> f64 {
    f64::from_bits(x.to_bits())
}

fn samples() -> Vec<f64> {
    vec![
        0.0,
        -0.0,
        1.0,
        -1.0,
        2.0,
        3.0,
        0.5,
        -0.5,
        1.0e-300,
        -1.0e-300,
        f64::MIN_POSITIVE,
        -f64::MIN_POSITIVE,
        5e-324,
        -5e-324,
        f64::MAX,
        f64::MIN,
        f64::INFINITY,
        f64::NEG_INFINITY,
        f64::NAN,
        -f64::NAN,
        10.0,
        -5.0,
        2.9999999999999996,
        3.0000000000000004,
        0.9999999999999999,
        1.0000000000000002,
    ]
}

#[test]
fn constants_are_the_patterns_of_their_numbers() {
    assert_eq!(ZERO_BITS, 0.0f64.to_bits());
    assert_eq!(ONE_BITS, 1.0f64.to_bits());
    assert_eq!(TWO_BITS, 2.0f64.to_bits());
    assert_eq!(THREE_BITS, 3.0f64.to_bits());
    assert_eq!(MINUS_ONE_BITS, (-1.0f64).to_bits());
    assert_eq!(INFINITY_BITS, f64::INFINITY.to_bits());
    assert_eq!(SIGN_BIT, (-0.0f64).to_bits());
}

#[test]
fn bits_round_trip() {
    for x in [0u64, 1, ONE_BITS, SIGN_BIT, u64::MAX] {
        assert_eq!(Binary64::from_bits(x).to_bits(), x);
        assert_eq!(Binary64::from_bits(x), Binary64 { bits: x });
    }
}

#[test]
fn less_than_agrees_with_the_numbers() {
    for x in samples() {
        for y in samples() {
            assert_eq!(b(x).less_than(b(y)), x < y, "{x} < {y}");
        }
    }
}

#[test]
fn not_a_number_agrees_with_the_numbers() {
    for x in samples() {
        assert_eq!(b(x).not_a_number(), x.is_nan(), "{x}");
    }
    assert!(Binary64::from_bits(INFINITY_BITS + 1).not_a_number());
    assert!(!Binary64::from_bits(INFINITY_BITS).not_a_number());
    assert!(Binary64::from_bits(u64::MAX).not_a_number());
}

#[test]
fn is_positive_agrees_with_the_numbers() {
    for x in samples() {
        assert_eq!(b(x).is_positive(), x > 0.0, "{x}");
    }
}

#[test]
fn clamp_agrees_with_the_numbers() {
    let bounds = [(1.0, 3.0), (-1.0, 1.0), (0.0, 2.0), (-0.0, 2.0), (2.0, 2.0)];
    for x in samples() {
        for (lo, hi) in bounds {
            let got = b(x).clamp(b(lo), b(hi));
            let want = x.clamp(lo, hi);
            assert_eq!(got.to_bits(), want.to_bits(), "{x} in [{lo}, {hi}]");
        }
    }
}

#[test]
fn clamp_keeps_what_is_not_a_number() {
    let nan = b(f64::NAN);
    assert_eq!(nan.clamp(b(1.0), b(3.0)), nan);
    assert!(f(nan.clamp(b(1.0), b(3.0))).is_nan());
}

#[test]
fn clamp_keeps_the_sign_of_zero() {
    assert_eq!(b(-0.0).clamp(b(0.0), b(2.0)).to_bits(), SIGN_BIT);
    assert_eq!(b(0.0).clamp(b(-1.0), b(1.0)).to_bits(), 0);
}
