use debug_plotter::value::{INFINITY_BITS, MAX_BITS, MIN_BITS, SIGN_BIT};
use debug_plotter::PlotType;

fn value(x: f64) -> PlotType {
    PlotType::from_bits(x.to_bits())
}

fn grid() -> Vec<f64> {
    vec![
        f64::NEG_INFINITY,
        f64::MIN,
        -1.0e300,
        -2.5,
        -1.0,
        -f64::MIN_POSITIVE,
        -5e-324,
        -0.0,
        0.0,
        5e-324,
        f64::MIN_POSITIVE,
        0.5,
        1.0,
        1.0000000000000002,
        3.0,
        1.0e300,
        f64::MAX,
        f64::INFINITY,
        f64::NAN,
        -f64::NAN,
    ]
}

#[test]
fn from_bits_round_trips() {
    assert_eq!(value(1.5).to_bits(), 1.5f64.to_bits());
    assert_eq!(f64::from_bits(value(-2.25).to_bits()), -2.25);
}

#[test]
fn constants_are_the_patterns_of_the_numbers() {
    assert_eq!(MAX_BITS, f64::MAX.to_bits());
    assert_eq!(MIN_BITS, f64::MIN.to_bits());
    assert_eq!(INFINITY_BITS, f64::INFINITY.to_bits());
    assert_eq!(SIGN_BIT, (-0.0f64).to_bits());
    assert_eq!(PlotType::max().to_bits(), f64::MAX.to_bits());
    assert_eq!(PlotType::min().to_bits(), f64::MIN.to_bits());
}

#[test]
fn less_than_agrees_with_the_numbers() {
    for a in grid() {
        for b in grid() {
            assert_eq!(value(a).less_than(value(b)), a < b, "{} < {}", a, b);
        }
    }
}

#[test]
fn greater_than_agrees_with_the_numbers() {
    for a in grid() {
        for b in grid() {
            assert_eq!(value(a).greater_than(value(b)), a > b, "{} > {}", a, b);
        }
    }
}

#[test]
fn is_nan_agrees_with_the_numbers() {
    for a in grid() {
        assert_eq!(value(a).is_nan(), a.is_nan(), "{}", a);
    }
}

#[test]
fn zeros_are_neither_less_nor_greater() {
    assert!(!value(-0.0).less_than(value(0.0)));
    assert!(!value(0.0).less_than(value(-0.0)));
    assert!(!value(-0.0).greater_than(value(0.0)));
}

#[test]
fn nan_compares_false_both_ways() {
    assert!(!value(f64::NAN).less_than(value(1.0)));
    assert!(!value(1.0).less_than(value(f64::NAN)));
    assert!(!value(f64::NAN).greater_than(value(1.0)));
    assert!(!value(f64::NAN).less_than(value(f64::NAN)));
}

#[test]
fn from_u64_converts_small_counts_exactly() {
    assert_eq!(PlotType::from_u64(0).to_bits(), 0.0f64.to_bits());
    assert_eq!(PlotType::from_u64(3).to_bits(), 3.0f64.to_bits());
    assert_eq!(PlotType::from_u64(1 << 53).to_bits(), 9007199254740992.0f64.to_bits());
}

#[test]
fn from_u64_rounds_large_counts_to_nearest() {
    assert_eq!(PlotType::from_u64((1 << 53) + 1).to_bits(), 9007199254740992.0f64.to_bits());
    assert_eq!(PlotType::from_u64(u64::MAX).to_bits(), 18446744073709551616.0f64.to_bits());
}
