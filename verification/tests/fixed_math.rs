use swifey::constants::{FEE_PRECISION, PRECISION, PRECISION_U64};
use swifey::errors::SwifeyError;
use swifey::utils::fixed_math::{
    calculate_fee_amount, fixed_div, fixed_div_u128, fixed_exp, fixed_ln, fixed_mul,
    fixed_mul_u128, EXP_MAX_INPUT, LN_2,
};

#[test]
fn fixed_mul_scales_the_product_down() {
    assert_eq!(fixed_mul(3 * PRECISION_U64, 2 * PRECISION_U64), Ok(6 * PRECISION_U64));
    assert_eq!(fixed_mul(u64::MAX, PRECISION_U64), Ok(u64::MAX));
    assert_eq!(fixed_mul(1, 1), Ok(0));
    assert_eq!(fixed_mul(1_500_000_000, 1_500_000_000), Ok(2_250_000_000));
    assert_eq!(fixed_mul(0, u64::MAX), Ok(0));
}

#[test]
fn fixed_mul_reports_overflow() {
    assert_eq!(fixed_mul(u64::MAX, PRECISION_U64 + 1), Err(SwifeyError::MathOverflow));
    assert_eq!(fixed_mul(u64::MAX, u64::MAX), Err(SwifeyError::MathOverflow));
}

#[test]
fn fixed_div_scales_the_quotient_up() {
    assert_eq!(fixed_div(6 * PRECISION_U64, 3 * PRECISION_U64), Ok(2 * PRECISION_U64));
    assert_eq!(fixed_div(1, 3), Ok(333_333_333));
    assert_eq!(fixed_div(0, 5), Ok(0));
    assert_eq!(fixed_div(6510, 10000), Ok(651_000_000));
    assert_eq!(fixed_div(10000, 6510), Ok(1_536_098_310));
}

#[test]
fn fixed_div_failures() {
    assert_eq!(fixed_div(1, 0), Err(SwifeyError::DivisionByZero));
    assert_eq!(fixed_div(0, 0), Err(SwifeyError::DivisionByZero));
    assert_eq!(fixed_div(u64::MAX, 1), Err(SwifeyError::MathOverflow));
}

#[test]
fn wide_helpers_work_at_the_finer_scale() {
    assert_eq!(fixed_div_u128(1, 3), Ok(333_333_333_333));
    assert_eq!(fixed_div_u128(12_500_000_000, 800_000_000_000_000), Ok(15_625_000));
    assert_eq!(fixed_div_u128(u64::MAX, 1), Ok(u64::MAX as u128 * PRECISION));
    assert_eq!(fixed_div_u128(7, 0), Err(SwifeyError::DivisionByZero));
    assert_eq!(fixed_mul_u128(5, 2 * PRECISION), Ok(10));
    assert_eq!(fixed_mul_u128(800_000_000_000_000, 15_625_000), Ok(12_500_000_000));
    assert_eq!(fixed_mul_u128(u64::MAX, 2 * PRECISION), Err(SwifeyError::MathOverflow));
    assert_eq!(fixed_mul_u128(u64::MAX, u128::MAX), Err(SwifeyError::MathOverflow));
    assert_eq!(fixed_mul_u128(0, u128::MAX), Ok(0));
}

#[test]
fn fee_is_the_rate_share_rounded_down() {
    assert_eq!(calculate_fee_amount(1_000_000_000, 100), Ok(10_000_000));
    assert_eq!(calculate_fee_amount(999, 100), Ok(9));
    assert_eq!(calculate_fee_amount(99, 100), Ok(0));
    assert_eq!(calculate_fee_amount(12_345, 0), Ok(0));
    assert_eq!(calculate_fee_amount(u64::MAX, FEE_PRECISION), Ok(u64::MAX));
    assert_eq!(calculate_fee_amount(u64::MAX, FEE_PRECISION + 1), Err(SwifeyError::MathOverflow));
}

#[test]
fn fee_never_exceeds_the_amount() {
    for amount in [0u64, 1, 9_999, 10_000, 1_000_000_007, u64::MAX] {
        for rate in [0u64, 1, 30, 100, 9_999, FEE_PRECISION] {
            let fee = calculate_fee_amount(amount, rate).unwrap();
            assert!(fee <= amount);
            assert_eq!(fee as u128, amount as u128 * rate as u128 / FEE_PRECISION as u128);
        }
    }
}

#[test]
fn fixed_exp_values() {
    assert_eq!(fixed_exp(0), Ok(PRECISION_U64));
    assert_eq!(fixed_exp(1), Ok(1_000_000_001));
    assert_eq!(fixed_exp(PRECISION_U64), Ok(2_718_281_821));
    assert_eq!(fixed_exp(2 * PRECISION_U64), Ok(7_389_056_061));
    assert_eq!(fixed_exp(PRECISION_U64 / 2), Ok(1_648_721_267));
    assert_eq!(fixed_exp(LN_2), Ok(1_999_999_994));
    assert_eq!(fixed_exp(10 * PRECISION_U64), Ok(20_188_170_573_741));
    assert_eq!(fixed_exp(23 * PRECISION_U64), Ok(302_812_963_393_556_378));
}

#[test]
fn fixed_exp_reports_overflow() {
    assert_eq!(fixed_exp(EXP_MAX_INPUT), Err(SwifeyError::MathOverflow));
    assert_eq!(fixed_exp(EXP_MAX_INPUT + 1), Err(SwifeyError::MathOverflow));
    assert_eq!(fixed_exp(u64::MAX), Err(SwifeyError::MathOverflow));
}

#[test]
fn fixed_ln_values() {
    assert_eq!(fixed_ln(PRECISION_U64), Ok(0));
    assert_eq!(fixed_ln(PRECISION_U64 + 1), Ok(0));
    assert_eq!(fixed_ln(2 * PRECISION_U64), Ok(693_147_181));
    assert_eq!(fixed_ln(3 * PRECISION_U64), Ok(1_098_612_283));
    assert_eq!(fixed_ln(10 * PRECISION_U64), Ok(2_302_585_091));
    assert_eq!(fixed_ln(1000 * PRECISION_U64), Ok(6_907_755_271));
    assert_eq!(fixed_ln(u64::MAX), Ok(23_638_153_730));
    // just below a power of two the series has converged
    assert_eq!(fixed_ln(1_999_996_000), Ok(693_145_172));
    assert_eq!(fixed_ln(2 * PRECISION_U64 - 1), Ok(693_147_174));
}

#[test]
fn fixed_ln_never_falls() {
    let mut last = 0i64;
    let mut x = PRECISION_U64;
    while x < 40 * PRECISION_U64 {
        let l = fixed_ln(x).unwrap();
        assert!(l >= last);
        last = l;
        x += 7_654_321;
    }
    for x in [2 * PRECISION_U64 - 1, 2 * PRECISION_U64, 4 * PRECISION_U64 - 1, 4 * PRECISION_U64] {
        assert!(fixed_ln(x).unwrap() <= fixed_ln(x + 1).unwrap());
    }
}

#[test]
fn fixed_ln_below_one_is_negative() {
    assert_eq!(fixed_ln(PRECISION_U64 / 2), Ok(-693_147_181));
    assert_eq!(fixed_ln(1), Ok(-20_723_265_841));
}

#[test]
fn fixed_ln_of_zero_fails() {
    assert_eq!(fixed_ln(0), Err(SwifeyError::DivisionByZero));
}
