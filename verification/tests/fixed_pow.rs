use swifey::constants::PRECISION_U64;
use swifey::errors::SwifeyError;
use swifey::utils::fixed_math::fixed_pow;

#[test]
fn test_fixed_pow_integer_exponent() {
    // For base = 2.0 and exponent = 1.0 the result should be roughly 2.0 in fixed point.
    let base = 2 * PRECISION_U64;
    let exp = PRECISION_U64; // 1.0
    let result = fixed_pow(base, exp).unwrap();
    // Allow a small rounding error
    assert!((result as i64 - (2 * PRECISION_U64) as i64).abs() < 10);
}

#[test]
fn test_fixed_pow_fractional_exponent() {
    // For base = 4.0 and exponent = 0.5, the result should be roughly 2.0
    let base = 4 * PRECISION_U64;
    let exp = PRECISION_U64 / 2; // 0.5
    let result = fixed_pow(base, exp).unwrap();
    assert!((result as i64 - (2 * PRECISION_U64) as i64).abs() < 10);
}

#[test]
fn test_fixed_pow_normalization() {
    // A large base value that requires normalization.
    let base = 1000 * PRECISION_U64; // large base
    let exp = PRECISION_U64; // exponent 1.0
    let result = fixed_pow(base, exp).unwrap();
    // Expected result should be approximately base. Allow for some rounding error.
    assert!((result as i64 - (1000 * PRECISION_U64) as i64).abs() < 1000);
}

#[test]
fn fixed_pow_exact_values() {
    assert_eq!(fixed_pow(4 * PRECISION_U64, PRECISION_U64 / 2), Ok(1_999_999_994));
    assert_eq!(fixed_pow(2 * PRECISION_U64, PRECISION_U64 / 2), Ok(1_414_213_559));
    assert_eq!(fixed_pow(PRECISION_U64 / 4, PRECISION_U64 / 2), Ok(500_000_001));
    assert_eq!(fixed_pow(3 * PRECISION_U64, 3 * PRECISION_U64 / 2), Ok(5_196_152_388));
    assert_eq!(fixed_pow(926_612_305, 651_000_000), Ok(951_591_690));
}

#[test]
fn fixed_pow_whole_exponents_square_and_multiply() {
    assert_eq!(fixed_pow(2 * PRECISION_U64, 10 * PRECISION_U64), Ok(1024 * PRECISION_U64));
    assert_eq!(fixed_pow(PRECISION_U64 / 2, 3 * PRECISION_U64), Ok(125_000_000));
    assert_eq!(fixed_pow(7 * PRECISION_U64, PRECISION_U64), Ok(7 * PRECISION_U64));
}

#[test]
fn fixed_pow_reduces_large_bases_by_tens() {
    assert_eq!(fixed_pow(1000 * PRECISION_U64, PRECISION_U64), Ok(1000 * PRECISION_U64));
    assert_eq!(fixed_pow(123_456_789_012, PRECISION_U64 / 2), Ok(11_111_111_020));
    assert_eq!(fixed_pow(u64::MAX, PRECISION_U64 / 3), Ok(2_642_245_898_065));
}

#[test]
fn fixed_pow_zero_exponent_is_one() {
    for base in [1, 17, PRECISION_U64 / 2, PRECISION_U64, 3 * PRECISION_U64, 10 * PRECISION_U64 + 1, u64::MAX] {
        assert_eq!(fixed_pow(base, 0), Ok(PRECISION_U64));
    }
}

#[test]
fn fixed_pow_of_one_is_one() {
    for exp in [0, 1, PRECISION_U64 / 3, PRECISION_U64, 5 * PRECISION_U64 + 7, u64::MAX] {
        assert_eq!(fixed_pow(PRECISION_U64, exp), Ok(PRECISION_U64));
    }
}

#[test]
fn fixed_pow_of_a_fraction_stays_below_one() {
    for base in [1, 1000, PRECISION_U64 / 3, PRECISION_U64 - 1] {
        for exp in [1, PRECISION_U64 / 2, 651_000_000, 1_536_098_310, 20 * PRECISION_U64] {
            let result = fixed_pow(base, exp).unwrap();
            assert!(result <= PRECISION_U64);
        }
    }
}

#[test]
fn fixed_pow_failures() {
    assert_eq!(fixed_pow(0, PRECISION_U64), Err(SwifeyError::DivisionByZero));
    assert_eq!(fixed_pow(0, 0), Err(SwifeyError::DivisionByZero));
    assert_eq!(fixed_pow(2 * PRECISION_U64, 40 * PRECISION_U64), Err(SwifeyError::MathOverflow));
    assert_eq!(fixed_pow(u64::MAX, u64::MAX), Err(SwifeyError::MathOverflow));
}

#[test]
fn fixed_pow_exponent_one_gives_the_base() {
    for base in [1, 999, PRECISION_U64 - 1, PRECISION_U64 + 1, 9_999_999_999, 10 * PRECISION_U64] {
        assert_eq!(fixed_pow(base, PRECISION_U64), Ok(base));
    }
    // a larger base loses the digits that its division by tens drops
    assert_eq!(fixed_pow(10 * PRECISION_U64 + 1, PRECISION_U64), Ok(10 * PRECISION_U64));
    assert_eq!(fixed_pow(123_456_789_012_345, PRECISION_U64), Ok(123_456_789_000_000));
}
