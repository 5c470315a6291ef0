//! Fixed-point arithmetic on unsigned 64-bit quantities.
//!
//! The 64-bit functions read a `u64` as a real number scaled by
//! `PRECISION_U64`; the two wide helpers carry a quotient at the finer scale
//! `PRECISION` in a `u128`. Every failure is returned, none panics.

use vstd::prelude::*;
use crate::constants::{FEE_PRECISION, PRECISION, PRECISION_U64};
use crate::errors::SwifeyError;
use crate::utils::fixed_math_lemmas::{
    lemma_exp_at_least_linear, lemma_exp_of_zero, lemma_exp_sum_grows, lemma_exp_sum_settles,
    lemma_frac_pow_bounds, lemma_int_pow_grows, lemma_inverse_range,
    lemma_ln_above_one_bounds, lemma_ln_argument_range, lemma_ln_of_one,
    lemma_ln_power_shrinks, lemma_ln_series_bounds, lemma_ln_series_settles, lemma_mul_value_bounds, lemma_pow_core_bounds,
    lemma_pow_core_identities,
};

verus! {

/// The product of two fixed-point numbers: `a * b / 10^9`, rounded down.
pub open spec fn mul_value(a: int, b: int) -> int {
    a * b / (PRECISION_U64 as int)
}

/// The quotient of two fixed-point numbers: `a * 10^9 / b`, rounded down.
pub open spec fn div_value(a: int, b: int) -> int {
    a * (PRECISION_U64 as int) / b
}

/// `a * b / 10^12`, rounded down: the product of an amount and a wide quotient.
pub open spec fn wide_mul_value(a: int, b: int) -> int {
    a * b / (PRECISION as int)
}

/// `a * 10^12 / b`, rounded down: the wide quotient of two amounts.
pub open spec fn wide_div_value(a: int, b: int) -> int {
    a * (PRECISION as int) / b
}

/// `ln 2` at the 64-bit scale.
pub const LN_2: u64 = 693_147_181;

/// The largest argument that `fixed_exp` accepts: `ln(2^64)` at the 64-bit scale.
pub const EXP_MAX_INPUT: u64 = 44_361_419_555;

/// A base above `10.0` is brought down by dividing by ten before it is raised to a power.
pub const MAX_SAFE_BASE: u64 = 10_000_000_000;

/// The exponential series stops after the term of this index.
pub const EXP_TERMS: u64 = 14;

/// The logarithm series has this many terms.
pub const LN_TERMS: u64 = 9;

/// Term `i` of the exponential series of `x`: the term before it times `x / i`.
pub open spec fn exp_term(x: int, i: nat) -> int
    decreases i,
{
    if i == 0 {
        PRECISION_U64 as int
    } else {
        mul_value(exp_term(x, (i - 1) as nat), x / (i as int))
    }
}

/// The sum of the terms `0..=k` of the exponential series of `x`.
pub open spec fn exp_sum(x: int, k: nat) -> int
    decreases k,
{
    if k == 0 {
        exp_term(x, 0)
    } else {
        exp_sum(x, (k - 1) as nat) + exp_term(x, k)
    }
}

/// `e^x` in fixed point: the exponential series of `x` up to the term `EXP_TERMS`.
pub open spec fn exp_value(x: int) -> int {
    exp_sum(x, EXP_TERMS as nat)
}

/// How often `x` is halved until it is below `2.0`.
pub open spec fn halvings(x: int) -> nat
    decreases x,
{
    if x < 2 * PRECISION_U64 {
        0
    } else {
        1 + halvings(x / 2)
    }
}

/// What is left of `x` after those halvings: a number in `[1.0, 2.0)` when `x >= 1.0`.
pub open spec fn mantissa(x: int) -> int
    decreases x,
{
    if x < 2 * PRECISION_U64 {
        x
    } else {
        mantissa(x / 2)
    }
}

/// Where the logarithm series is taken for a mantissa `m`: `(m - 1.0) / (m + 1.0)`,
/// which is at most a third.
pub open spec fn ln_argument(m: int) -> int {
    div_value(m - PRECISION_U64, m + PRECISION_U64)
}

/// `z^(2k+1)` in fixed point: `z` times the square of `z`, `k` times.
pub open spec fn ln_power(z: int, k: nat) -> int
    decreases k,
{
    if k == 0 {
        z
    } else {
        mul_value(ln_power(z, (k - 1) as nat), mul_value(z, z))
    }
}

/// The first `k` terms of the series `z + z^3/3 + z^5/5 + ...`, which is
/// half of `ln((1 + z) / (1 - z))`. Every term is rounded down.
pub open spec fn ln_series(z: int, k: nat) -> int
    decreases k,
{
    if k == 0 {
        0
    } else {
        ln_series(z, (k - 1) as nat) + ln_power(z, (k - 1) as nat) / (2 * k - 1)
    }
}

/// `ln x` in fixed point for `x >= 1.0`: twice the series at the argument of
/// the mantissa of `x`, plus `ln 2` for each halving.
pub open spec fn ln_above_one(x: int) -> int {
    2 * ln_series(ln_argument(mantissa(x)), LN_TERMS as nat) + halvings(x) * LN_2
}

/// `ln x` in fixed point; below `1.0` it is `-ln(1 / x)`.
pub open spec fn ln_value(x: int) -> int {
    if x >= PRECISION_U64 {
        ln_above_one(x)
    } else {
        -ln_above_one(div_value(PRECISION_U64 as int, x))
    }
}

/// Square-and-multiply from the low bit of `n` up: `acc` times `cur^n`, with
/// one fixed-point multiplication per step.
pub open spec fn int_pow_from(acc: int, cur: int, n: nat) -> int
    decreases n,
{
    if n == 0 {
        acc
    } else {
        int_pow_from(
            if n % 2 == 1 {
                mul_value(acc, cur)
            } else {
                acc
            },
            mul_value(cur, cur),
            n / 2,
        )
    }
}

/// `base^n` in fixed point for a whole number `n`.
pub open spec fn int_pow_value(base: int, n: nat) -> int {
    int_pow_from(PRECISION_U64 as int, base, n)
}

/// `base^f` in fixed point for a fraction `f` below `1.0`: `e^(f * ln base)`,
/// and below `1.0` the inverse of `e^(f * ln(1 / base))`.
pub open spec fn frac_pow_value(base: int, f: int) -> int {
    if base >= PRECISION_U64 {
        exp_value(mul_value(ln_above_one(base), f))
    } else {
        div_value(
            PRECISION_U64 as int,
            exp_value(mul_value(ln_above_one(div_value(PRECISION_U64 as int, base)), f)),
        )
    }
}

/// `base^exp` in fixed point for a base of at most `MAX_SAFE_BASE`: the power
/// by the whole part of `exp` times the power by its fraction.
pub open spec fn pow_core_value(base: int, exp: int) -> int {
    mul_value(
        int_pow_value(base, (exp / (PRECISION_U64 as int)) as nat),
        frac_pow_value(base, exp % (PRECISION_U64 as int)),
    )
}

/// How often `x` is divided by ten until it is at most `MAX_SAFE_BASE`.
pub open spec fn tens(x: int) -> nat
    decreases x,
{
    if x <= MAX_SAFE_BASE {
        0
    } else {
        1 + tens(x / 10)
    }
}

/// What is left of `x` after those divisions.
pub open spec fn reduced_base(x: int) -> int
    decreases x,
{
    if x <= MAX_SAFE_BASE {
        x
    } else {
        reduced_base(x / 10)
    }
}

/// `base^exp` in fixed point. A base above `MAX_SAFE_BASE` is first reduced by
/// tens, and the power of the tens is multiplied back in.
pub open spec fn pow_value(base: int, exp: int) -> int {
    if base <= MAX_SAFE_BASE {
        pow_core_value(base, exp)
    } else {
        mul_value(
            pow_core_value(reduced_base(base), exp),
            pow_core_value(MAX_SAFE_BASE as int, tens(base) * exp),
        )
    }
}

/// Whether `base^exp` can be returned: the power fits in 64 bits, and so
/// does the exponent of the tens of a reduced base.
pub open spec fn pow_fits(base: int, exp: int) -> bool {
    &&& pow_value(base, exp) <= u64::MAX
    &&& base > MAX_SAFE_BASE ==> tens(base) * exp <= u64::MAX
}

/// The fee on `amount` at `fee_percentage` parts in `FEE_PRECISION`, rounded down.
pub open spec fn fee_value(amount: int, fee_percentage: int) -> int {
    amount * fee_percentage / (FEE_PRECISION as int)
}

proof fn lemma_u64_product_fits(a: u64, b: u64)
    ensures
        0 <= a * b <= 0xFFFF_FFFF_FFFF_FFFE_0000_0000_0000_0001,
{
    assert(0 <= a * b <= 0xFFFF_FFFF_FFFF_FFFF * 0xFFFF_FFFF_FFFF_FFFF) by (nonlinear_arith)
        requires
            0 <= a <= 0xFFFF_FFFF_FFFF_FFFF,
            0 <= b <= 0xFFFF_FFFF_FFFF_FFFF,
    ;
}

/// Multiplies an amount by a wide quotient and scales the product back down.
///
/// Fails with `MathOverflow` when the product does not fit in 128 bits or
/// the scaled result does not fit in 64, and on no other input.
pub fn fixed_mul_u128(a: u64, b: u128) -> (r: Result<u64, SwifeyError>)
    ensures
        match r {
            Ok(v) => a * b <= u128::MAX && v == wide_mul_value(a as int, b as int),
            Err(e) => e == SwifeyError::MathOverflow && (a * b > u128::MAX || wide_mul_value(
                a as int,
                b as int,
            ) > u64::MAX),
        },
{
    let product = match (a as u128).checked_mul(b) {
        Some(p) => p,
        None => {
            return Err(SwifeyError::MathOverflow);
        },
    };
    let result: u128 = product / PRECISION;
    if result > u64::MAX as u128 {
        return Err(SwifeyError::MathOverflow);
    }
    Ok(result as u64)
}

/// Divides one amount by another and keeps the quotient at the wide scale.
///
/// Fails with `DivisionByZero` when `b` is zero, and on no other input.
pub fn fixed_div_u128(a: u64, b: u64) -> (r: Result<u128, SwifeyError>)
    ensures
        b == 0 ==> r == Err::<u128, SwifeyError>(SwifeyError::DivisionByZero),
        b != 0 ==> r == Ok::<u128, SwifeyError>(wide_div_value(a as int, b as int) as u128),
        b != 0 ==> 0 <= wide_div_value(a as int, b as int) <= a * PRECISION <= u128::MAX,
{
    if b == 0 {
        return Err(SwifeyError::DivisionByZero);
    }
    assert(a * PRECISION <= u128::MAX) by (nonlinear_arith)
        requires
            0 <= a <= 0xFFFF_FFFF_FFFF_FFFF,
            PRECISION == 1_000_000_000_000,
    ;
    let numerator: u128 = (a as u128) * PRECISION;
    Ok(numerator / (b as u128))
}

/// Multiplies two fixed-point numbers.
///
/// Fails with `MathOverflow` when the product does not fit in 64 bits, and
/// on no other input.
pub fn fixed_mul(a: u64, b: u64) -> (r: Result<u64, SwifeyError>)
    ensures
        match r {
            Ok(v) => v == mul_value(a as int, b as int),
            Err(e) => e == SwifeyError::MathOverflow && mul_value(a as int, b as int) > u64::MAX,
        },
{
    proof {
        lemma_u64_product_fits(a, b);
    }
    let full: u128 = (a as u128) * (b as u128);
    let result: u128 = full / (PRECISION_U64 as u128);
    if result > u64::MAX as u128 {
        return Err(SwifeyError::MathOverflow);
    }
    Ok(result as u64)
}

/// Divides one fixed-point number by another.
///
/// Fails with `DivisionByZero` when `b` is zero, with `MathOverflow` when
/// the quotient does not fit in 64 bits, and on no other input.
pub fn fixed_div(a: u64, b: u64) -> (r: Result<u64, SwifeyError>)
    ensures
        match r {
            Ok(v) => b != 0 && v == div_value(a as int, b as int),
            Err(e) => if b == 0 {
                e == SwifeyError::DivisionByZero
            } else {
                e == SwifeyError::MathOverflow && div_value(a as int, b as int) > u64::MAX
            },
        },
{
    if b == 0 {
        return Err(SwifeyError::DivisionByZero);
    }
    assert(a * PRECISION_U64 <= u128::MAX) by (nonlinear_arith)
        requires
            0 <= a <= 0xFFFF_FFFF_FFFF_FFFF,
            PRECISION_U64 == 1_000_000_000,
    ;
    let numerator: u128 = (a as u128) * (PRECISION_U64 as u128);
    let result: u128 = numerator / (b as u128);
    if result > u64::MAX as u128 {
        return Err(SwifeyError::MathOverflow);
    }
    Ok(result as u64)
}

/// The fee on `amount` at the rate `fee_percentage`, in parts of
/// `FEE_PRECISION`, rounded down.
///
/// At a rate of at most 100% it succeeds and is at most `amount`; it fails
/// with `MathOverflow` only when the fee does not fit in 64 bits.
pub fn calculate_fee_amount(amount: u64, fee_percentage: u64) -> (r: Result<u64, SwifeyError>)
    ensures
        match r {
            Ok(v) => v == fee_value(amount as int, fee_percentage as int),
            Err(e) => e == SwifeyError::MathOverflow && fee_value(
                amount as int,
                fee_percentage as int,
            ) > u64::MAX,
        },
        fee_percentage <= FEE_PRECISION ==> r is Ok && r->Ok_0 <= amount,
{
    proof {
        lemma_u64_product_fits(amount, fee_percentage);
        if fee_percentage <= FEE_PRECISION {
            lemma_fee_at_most_amount(amount as int, fee_percentage as int);
        }
    }
    let full: u128 = (amount as u128) * (fee_percentage as u128);
    let result: u128 = full / (FEE_PRECISION as u128);
    if result > u64::MAX as u128 {
        return Err(SwifeyError::MathOverflow);
    }
    Ok(result as u64)
}

/// `e^x` for a fixed-point `x`, by the exponential series.
///
/// Fails with `MathOverflow` when `x` is above `EXP_MAX_INPUT` or the sum
/// does not fit in 64 bits, and on no other input. The result is never
/// below `1.0 + x`, and `e^0` is exactly `1.0`.
pub fn fixed_exp(x: u64) -> (r: Result<u64, SwifeyError>)
    ensures
        match r {
            Ok(v) => x <= EXP_MAX_INPUT && v == exp_value(x as int) && v >= PRECISION_U64 + x,
            Err(e) => e == SwifeyError::MathOverflow && (x > EXP_MAX_INPUT || exp_value(x as int)
                > u64::MAX),
        },
        x == 0 ==> r == Ok::<u64, SwifeyError>(PRECISION_U64),
{
    proof {
        lemma_exp_at_least_linear(x as int);
    }
    if x == 0 {
        proof {
            lemma_exp_of_zero();
        }
        return Ok(PRECISION_U64);
    }
    if x > EXP_MAX_INPUT {
        return Err(SwifeyError::MathOverflow);
    }
    let mut sum: u64 = PRECISION_U64;
    let mut term: u64 = PRECISION_U64;
    let mut n: u64 = 1;
    while term > 0 && n <= EXP_TERMS
        invariant
            x != 0,
            1 <= n <= EXP_TERMS + 1,
            term == exp_term(x as int, (n - 1) as nat),
            sum == exp_sum(x as int, (n - 1) as nat),
        decreases EXP_TERMS + 1 - n,
    {
        proof {
            lemma_exp_sum_grows(x as int, n as nat, EXP_TERMS as nat);
        }
        term = match fixed_mul(term, x / n) {
            Ok(t) => t,
            Err(_) => {
                return Err(SwifeyError::MathOverflow);
            },
        };
        sum = match sum.checked_add(term) {
            Some(s) => s,
            None => {
                return Err(SwifeyError::MathOverflow);
            },
        };
        n = n + 1;
    }
    proof {
        if n <= EXP_TERMS {
            lemma_exp_sum_settles(x as int, (n - 1) as nat, EXP_TERMS as nat);
        }
    }
    Ok(sum)
}

/// `ln x` for `x >= 1.0`; it succeeds on every such `x`.
fn ln_at_least_one(x: u64) -> (r: Result<u64, SwifeyError>)
    requires
        x >= PRECISION_U64,
    ensures
        r == Ok::<u64, SwifeyError>(ln_above_one(x as int) as u64),
        0 <= ln_above_one(x as int) <= (halvings(x as int) + 1) * LN_2,
        ln_above_one(x as int) <= 26 * PRECISION_U64,
{
    let mut shift: u64 = 0;
    let mut normalized: u64 = x;
    proof {
        lemma_ln_above_one_bounds(x as int);
    }
    while normalized >= 2 * PRECISION_U64
        invariant
            normalized >= PRECISION_U64,
            halvings(x as int) == shift + halvings(normalized as int),
            mantissa(x as int) == mantissa(normalized as int),
            halvings(x as int) <= 35,
        decreases normalized,
    {
        normalized = normalized / 2;
        shift = shift + 1;
    }
    proof {
        lemma_ln_argument_range(normalized as int);
    }
    let z = fixed_div(normalized - PRECISION_U64, normalized + PRECISION_U64)?;
    proof {
        lemma_mul_value_bounds(z as int, z as int);
    }
    let square = fixed_mul(z, z)?;
    let mut sum: u64 = 0;
    let mut term: u64 = z;
    let mut k: u64 = 0;
    while term > 0 && k < LN_TERMS
        invariant
            k <= LN_TERMS,
            0 <= z <= PRECISION_U64,
            square == mul_value(z as int, z as int),
            term == ln_power(z as int, k as nat),
            sum == ln_series(z as int, k as nat),
        decreases LN_TERMS - k,
    {
        proof {
            lemma_ln_series_bounds(z as int, (k + 1) as nat);
            lemma_ln_power_shrinks(z as int, k as nat);
            assert((k + 1) * z <= 9 * PRECISION_U64) by (nonlinear_arith)
                requires
                    k < 9,
                    0 <= z <= PRECISION_U64,
            ;
        }
        sum = sum + term / (2 * k + 1);
        term = fixed_mul(term, square)?;
        k = k + 1;
    }
    proof {
        if k < LN_TERMS {
            lemma_ln_series_settles(z as int, k as nat, LN_TERMS as nat);
        }
        lemma_ln_series_bounds(z as int, LN_TERMS as nat);
        assert(LN_TERMS * z <= 9 * PRECISION_U64) by (nonlinear_arith)
            requires
                LN_TERMS == 9,
                0 <= z <= PRECISION_U64,
        ;
        assert(shift * LN_2 <= 35 * LN_2) by (nonlinear_arith)
            requires
                shift <= 35,
                LN_2 == 693_147_181,
        ;
    }
    Ok(2 * sum + shift * LN_2)
}

/// The natural logarithm of a fixed-point `x`: at least zero from `1.0` up,
/// at most zero below, exactly zero at `1.0`, and never falling as `x` grows.
///
/// Fails with `DivisionByZero` at zero and on no other input.
pub fn fixed_ln(x: u64) -> (r: Result<i64, SwifeyError>)
    ensures
        x == 0 ==> r == Err::<i64, SwifeyError>(SwifeyError::DivisionByZero),
        x != 0 ==> r == Ok::<i64, SwifeyError>(ln_value(x as int) as i64),
        x != 0 ==> i64::MIN < ln_value(x as int) <= i64::MAX,
        x >= PRECISION_U64 ==> 0 <= ln_value(x as int),
        0 < x < PRECISION_U64 ==> ln_value(x as int) <= 0,
        x == PRECISION_U64 ==> ln_value(x as int) == 0,
{
    if x == 0 {
        return Err(SwifeyError::DivisionByZero);
    }
    if x >= PRECISION_U64 {
        proof {
            if x == PRECISION_U64 {
                lemma_ln_of_one();
            }
        }
        let l = ln_at_least_one(x)?;
        return Ok(l as i64);
    }
    proof {
        lemma_inverse_range(x as int);
    }
    let inverse = fixed_div(PRECISION_U64, x)?;
    let l = ln_at_least_one(inverse)?;
    Ok(-(l as i64))
}

/// `base^n` for a whole number `n`, by square-and-multiply.
fn pow_integer(base: u64, n: u64) -> (r: Result<u64, SwifeyError>)
    ensures
        match r {
            Ok(v) => v == int_pow_value(base as int, n as nat),
            Err(e) => e == SwifeyError::MathOverflow && int_pow_value(base as int, n as nat)
                > u64::MAX,
        },
        base <= PRECISION_U64 ==> r is Ok && r->Ok_0 <= PRECISION_U64,
        base >= PRECISION_U64 ==> int_pow_value(base as int, n as nat) >= PRECISION_U64,
{
    let mut result: u64 = PRECISION_U64;
    let mut current_exp: u64 = n;
    let mut current_base: u64 = base;
    while current_exp > 0
        invariant
            int_pow_from(result as int, current_base as int, current_exp as nat) == int_pow_value(
                base as int,
                n as nat,
            ),
            base <= PRECISION_U64 ==> result <= PRECISION_U64 && current_base <= PRECISION_U64,
            base >= PRECISION_U64 ==> result >= PRECISION_U64 && current_base >= PRECISION_U64,
        decreases current_exp,
    {
        let ghost next = mul_value(current_base as int, current_base as int);
        let ghost half = (current_exp / 2) as nat;
        let ghost stepped = if current_exp % 2 == 1 {
            mul_value(result as int, current_base as int)
        } else {
            result as int
        };
        proof {
            lemma_mul_value_bounds(result as int, current_base as int);
            lemma_mul_value_bounds(current_base as int, current_base as int);
            if half == 0 {
                assert(int_pow_from(stepped, next, half) == int_pow_from(
                    stepped,
                    current_base as int,
                    half,
                ));
            }
            if base >= PRECISION_U64 {
                lemma_int_pow_grows(stepped, next, half);
            }
        }
        if current_exp % 2 == 1 {
            result = fixed_mul(result, current_base)?;
        }
        if current_exp > 1 {
            current_base = fixed_mul(current_base, current_base)?;
        }
        current_exp = current_exp / 2;
    }
    Ok(result)
}

/// `base^f` for a fraction `f` below `1.0`; it succeeds on every base from
/// the smallest positive number up to `MAX_SAFE_BASE`.
fn pow_fraction(base: u64, f: u64) -> (r: Result<u64, SwifeyError>)
    requires
        1 <= base <= MAX_SAFE_BASE,
        f < PRECISION_U64,
    ensures
        r == Ok::<u64, SwifeyError>(frac_pow_value(base as int, f as int) as u64),
        0 <= frac_pow_value(base as int, f as int) <= u64::MAX,
        base >= PRECISION_U64 ==> frac_pow_value(base as int, f as int) >= PRECISION_U64,
        base <= PRECISION_U64 ==> frac_pow_value(base as int, f as int) <= PRECISION_U64,
{
    proof {
        lemma_frac_pow_bounds(base as int, f as int);
    }
    if base >= PRECISION_U64 {
        let ln_base = ln_at_least_one(base)?;
        let scaled = fixed_mul(ln_base, f)?;
        fixed_exp(scaled)
    } else {
        let inverse = fixed_div(PRECISION_U64, base)?;
        let ln_inverse = ln_at_least_one(inverse)?;
        let scaled = fixed_mul(ln_inverse, f)?;
        let grown = fixed_exp(scaled)?;
        fixed_div(PRECISION_U64, grown)
    }
}

/// `base^exp` for a base of at most `MAX_SAFE_BASE`.
fn pow_core(base: u64, exp: u64) -> (r: Result<u64, SwifeyError>)
    requires
        1 <= base <= MAX_SAFE_BASE,
    ensures
        match r {
            Ok(v) => v == pow_core_value(base as int, exp as int),
            Err(e) => e == SwifeyError::MathOverflow && pow_core_value(base as int, exp as int)
                > u64::MAX,
        },
        base <= PRECISION_U64 ==> r is Ok && r->Ok_0 <= PRECISION_U64,
        base >= PRECISION_U64 ==> pow_core_value(base as int, exp as int) >= PRECISION_U64,
{
    proof {
        lemma_pow_core_identities(base as int, exp as int);
        lemma_pow_core_bounds(base as int, exp as int);
    }
    if exp == 0 {
        return Ok(PRECISION_U64);
    }
    if exp == PRECISION_U64 {
        return Ok(base);
    }
    if base == PRECISION_U64 {
        return Ok(PRECISION_U64);
    }
    let whole: u64 = exp / PRECISION_U64;
    let fraction: u64 = exp % PRECISION_U64;
    let whole_power = pow_integer(base, whole)?;
    if fraction == 0 {
        return Ok(whole_power);
    }
    let fraction_power = pow_fraction(base, fraction)?;
    fixed_mul(whole_power, fraction_power)
}

/// `base^exp` for fixed-point `base` and `exp`.
///
/// Fails with `DivisionByZero` when `base` is zero, with `MathOverflow`
/// when the power cannot be returned, and on no other input. Any positive
/// base to the power zero is `1.0`, `1.0` to any power is `1.0`, and a
/// power lies on the same side of `1.0` as its base.
pub fn fixed_pow(base: u64, exp: u64) -> (r: Result<u64, SwifeyError>)
    ensures
        match r {
            Ok(v) => base != 0 && pow_fits(base as int, exp as int) && v == pow_value(
                base as int,
                exp as int,
            ),
            Err(e) => if base == 0 {
                e == SwifeyError::DivisionByZero
            } else {
                e == SwifeyError::MathOverflow && !pow_fits(base as int, exp as int)
            },
        },
        base != 0 && exp == 0 ==> r == Ok::<u64, SwifeyError>(PRECISION_U64),
        base == PRECISION_U64 ==> r == Ok::<u64, SwifeyError>(PRECISION_U64),
        0 < base <= MAX_SAFE_BASE && exp == PRECISION_U64 ==> r == Ok::<u64, SwifeyError>(base),
        0 < base <= PRECISION_U64 ==> r is Ok && r->Ok_0 <= PRECISION_U64,
        base >= PRECISION_U64 && r is Ok ==> r->Ok_0 >= PRECISION_U64,
{
    if base == 0 {
        return Err(SwifeyError::DivisionByZero);
    }
    if base <= MAX_SAFE_BASE {
        proof {
            lemma_pow_core_identities(base as int, exp as int);
        }
        return pow_core(base, exp);
    }
    let mut norm_count: u64 = 0;
    let mut normalized_base: u64 = base;
    while normalized_base > MAX_SAFE_BASE
        invariant
            normalized_base >= PRECISION_U64,
            tens(base as int) == norm_count + tens(normalized_base as int),
            reduced_base(base as int) == reduced_base(normalized_base as int),
            norm_count + normalized_base <= u64::MAX,
        decreases normalized_base,
    {
        normalized_base = normalized_base / 10;
        norm_count = norm_count + 1;
    }
    proof {
        assert(exp == 0 ==> norm_count * exp == 0) by (nonlinear_arith);
        lemma_pow_core_identities(normalized_base as int, exp as int);
        lemma_pow_core_identities(MAX_SAFE_BASE as int, norm_count * exp);
        lemma_pow_core_bounds(normalized_base as int, exp as int);
        lemma_pow_core_bounds(MAX_SAFE_BASE as int, norm_count * exp);
        lemma_mul_value_bounds(
            pow_core_value(normalized_base as int, exp as int),
            pow_core_value(MAX_SAFE_BASE as int, norm_count * exp),
        );
    }
    let safe_result = pow_core(normalized_base, exp)?;
    let correction_exp = match norm_count.checked_mul(exp) {
        Some(v) => v,
        None => {
            return Err(SwifeyError::MathOverflow);
        },
    };
    let correction = pow_core(MAX_SAFE_BASE, correction_exp)?;
    fixed_mul(safe_result, correction)
}

/// A fee at a rate of at most 100% never exceeds the amount it is charged on.
pub proof fn lemma_fee_at_most_amount(amount: int, fee_percentage: int)
    requires
        0 <= amount,
        0 <= fee_percentage <= FEE_PRECISION,
    ensures
        0 <= fee_value(amount, fee_percentage) <= amount,
{
    let d = FEE_PRECISION as int;
    assert(0 <= amount * fee_percentage <= amount * d) by (nonlinear_arith)
        requires
            0 <= amount,
            0 <= fee_percentage <= d,
    ;
}

} // verus!
