// The bit-pattern comparison model against real IEEE-754 `f64` semantics:
// every predicate must agree with the exact floating-point comparison it
// stands for, across zeros, signs, infinities, subnormals and NaNs.

use sci_calc::fbits::{check_float_eq, check_le_zero, check_lt_zero, check_nan, check_zero};

fn sample_values() -> Vec<f64> {
    vec![
        0.0,
        -0.0,
        1.0,
        -1.0,
        2.5,
        -2.5,
        1e-300,
        -1e-300,
        5e-324,
        -5e-324,
        1e308,
        -1e308,
        f64::INFINITY,
        f64::NEG_INFINITY,
        f64::NAN,
        -f64::NAN,
        f64::MIN_POSITIVE,
        std::f64::consts::PI,
    ]
}

#[test]
fn zero_check_matches_float_equality_with_zero() {
    for v in sample_values() {
        assert_eq!(check_zero(v.to_bits()), v == 0.0, "value {v}");
    }
}

#[test]
fn nan_check_matches_is_nan() {
    for v in sample_values() {
        assert_eq!(check_nan(v.to_bits()), v.is_nan(), "value {v}");
    }
}

#[test]
fn lt_zero_check_matches_float_comparison() {
    for v in sample_values() {
        assert_eq!(check_lt_zero(v.to_bits()), v < 0.0, "value {v}");
    }
}

#[test]
fn le_zero_check_matches_float_comparison() {
    for v in sample_values() {
        assert_eq!(check_le_zero(v.to_bits()), v <= 0.0, "value {v}");
    }
}

#[test]
fn float_eq_check_matches_float_equality() {
    for x in sample_values() {
        for y in sample_values() {
            assert_eq!(
                check_float_eq(x.to_bits(), y.to_bits()),
                x == y,
                "values {x} and {y}"
            );
        }
    }
}

#[test]
fn negative_zero_counts_as_zero() {
    assert!(check_zero((-0.0f64).to_bits()));
    assert!(!check_lt_zero((-0.0f64).to_bits()));
    assert!(check_le_zero((-0.0f64).to_bits()));
}
