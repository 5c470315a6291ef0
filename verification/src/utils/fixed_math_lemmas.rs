//! Facts about the fixed-point values, from which the arithmetic is proved.

use vstd::prelude::*;
use vstd::arithmetic::div_mod::{
    lemma_div_is_ordered, lemma_div_is_ordered_by_denominator, lemma_div_pos_is_pos,
    lemma_fundamental_div_mod, lemma_mod_bound,
};
use vstd::arithmetic::mul::lemma_mul_upper_bound;
use vstd::arithmetic::power2::{lemma2_to64, lemma2_to64_rest, lemma_pow2_unfold, pow2};
use crate::constants::PRECISION_U64;
use crate::utils::fixed_math::{
    div_value, exp_sum, exp_term, exp_value, frac_pow_value, halvings, int_pow_from,
    int_pow_value, ln_above_one, ln_argument, ln_power, ln_series, mantissa, mul_value,
    pow_core_value, EXP_TERMS, LN_2, LN_TERMS, MAX_SAFE_BASE,
};

verus! {

/// A fixed-point product is at least zero, and lies on the same side of a
/// factor as the other factor lies of `1.0`.
pub proof fn lemma_mul_value_bounds(a: int, b: int)
    requires
        0 <= a,
        0 <= b,
    ensures
        0 <= mul_value(a, b),
        b <= PRECISION_U64 ==> mul_value(a, b) <= a,
        b >= PRECISION_U64 ==> mul_value(a, b) >= a,
        a <= PRECISION_U64 ==> mul_value(a, b) <= b,
        a >= PRECISION_U64 ==> mul_value(a, b) >= b,
{
    let p = PRECISION_U64 as int;
    if b <= p {
        lemma_mul_upper_bound(a, a, b, p);
    }
    if b >= p {
        lemma_mul_upper_bound(a, a, p, b);
    }
    if a <= p {
        lemma_mul_upper_bound(a, p, b, b);
        assert(p * b == b * p) by (nonlinear_arith);
    }
    if a >= p {
        lemma_mul_upper_bound(p, a, b, b);
        assert(p * b == b * p) by (nonlinear_arith);
    }
}

/// A fixed-point product grows with each factor.
pub proof fn lemma_mul_value_monotone(a: int, a2: int, b: int, b2: int)
    requires
        0 <= a <= a2,
        0 <= b <= b2,
    ensures
        mul_value(a, b) <= mul_value(a2, b2),
{
    lemma_mul_upper_bound(a, a2, b, b2);
}

/// Multiplying by `1.0` changes nothing.
pub proof fn lemma_mul_value_one(a: int)
    requires
        0 <= a,
    ensures
        mul_value(a, PRECISION_U64 as int) == a,
        mul_value(PRECISION_U64 as int, a) == a,
{
    let p = PRECISION_U64 as int;
    assert(p * a == a * p) by (nonlinear_arith);
}

/// No term of the exponential series is negative.
pub proof fn lemma_exp_term_nonnegative(x: int, i: nat)
    requires
        0 <= x,
    ensures
        0 <= exp_term(x, i),
    decreases i,
{
    if i > 0 {
        lemma_exp_term_nonnegative(x, (i - 1) as nat);
    }
}

/// The partial sums of the exponential series grow, and each is at least
/// `1.0` and at least its own last term.
pub proof fn lemma_exp_sum_grows(x: int, j: nat, k: nat)
    requires
        0 <= x,
        j <= k,
    ensures
        PRECISION_U64 <= exp_sum(x, j) <= exp_sum(x, k),
        exp_term(x, j) <= exp_sum(x, j),
    decreases k,
{
    lemma_exp_term_nonnegative(x, j);
    if j > 0 {
        lemma_exp_sum_grows(x, 0, (j - 1) as nat);
    }
    if j < k {
        lemma_exp_sum_grows(x, j, (k - 1) as nat);
        lemma_exp_term_nonnegative(x, k);
    }
}

/// Once a term of the exponential series is zero, the sum stays as it is.
pub proof fn lemma_exp_sum_settles(x: int, i: nat, k: nat)
    requires
        i <= k,
        exp_term(x, i) == 0,
    ensures
        exp_term(x, k) == 0,
        exp_sum(x, k) == exp_sum(x, i),
    decreases k,
{
    if i < k {
        lemma_exp_sum_settles(x, i, (k - 1) as nat);
    }
}

/// `e^0` is exactly `1.0`.
pub proof fn lemma_exp_of_zero()
    ensures
        exp_value(0) == PRECISION_U64,
{
    lemma_exp_sum_settles(0, 1, EXP_TERMS as nat);
    assert(exp_sum(0, 1) == exp_sum(0, 0) + exp_term(0, 1));
}

/// The exponential of `x` is at least `1.0 + x`: the first two terms of the series.
pub proof fn lemma_exp_at_least_linear(x: int)
    requires
        0 <= x,
    ensures
        exp_value(x) >= PRECISION_U64 + x,
{
    lemma_exp_sum_grows(x, 1, EXP_TERMS as nat);
    lemma_mul_value_one(x);
    assert(exp_sum(x, 1) == exp_sum(x, 0) + exp_term(x, 1));
}

/// The exponential series grows with its argument, term by term.
pub proof fn lemma_exp_monotone(x: int, x2: int, k: nat)
    requires
        0 <= x <= x2,
    ensures
        exp_term(x, k) <= exp_term(x2, k),
        exp_sum(x, k) <= exp_sum(x2, k),
    decreases k,
{
    if k > 0 {
        lemma_exp_monotone(x, x2, (k - 1) as nat);
        lemma_exp_term_nonnegative(x, (k - 1) as nat);
        lemma_div_is_ordered(x, x2, k as int);
        lemma_mul_value_monotone(
            exp_term(x, (k - 1) as nat),
            exp_term(x2, (k - 1) as nat),
            x / (k as int),
            x2 / (k as int),
        );
    }
}

/// A number below `2.0 * 2^k` is below `2.0` after at most `k` halvings.
pub proof fn lemma_halvings_bounded(x: int, k: nat)
    requires
        0 <= x < 2 * PRECISION_U64 * pow2(k),
    ensures
        halvings(x) <= k,
    decreases k,
{
    if x >= 2 * PRECISION_U64 {
        if k == 0 {
            lemma2_to64();
        } else {
            lemma_pow2_unfold(k);
            let m = pow2((k - 1) as nat) as int;
            assert(2 * PRECISION_U64 * (2 * m) == 2 * (2 * PRECISION_U64 * m)) by (nonlinear_arith);
            lemma_halvings_bounded(x / 2, (k - 1) as nat);
        }
    }
}

/// No 64-bit number takes more than 35 halvings.
pub proof fn lemma_halvings_of_u64(x: u64)
    ensures
        halvings(x as int) <= 35,
{
    lemma2_to64_rest();
    lemma_halvings_bounded(x as int, 35);
}

/// The mantissa of a number that is at least `1.0` lies in `[1.0, 2.0)`.
pub proof fn lemma_mantissa_range(x: int)
    requires
        x >= PRECISION_U64,
    ensures
        PRECISION_U64 <= mantissa(x) < 2 * PRECISION_U64,
    decreases x,
{
    if x >= 2 * PRECISION_U64 {
        lemma_mantissa_range(x / 2);
    }
}

/// The odd powers of a number in `[0, 1.0]` shrink, and none is negative.
pub proof fn lemma_ln_power_shrinks(z: int, k: nat)
    requires
        0 <= z <= PRECISION_U64,
    ensures
        0 <= ln_power(z, k + 1) <= ln_power(z, k) <= z,
        0 <= mul_value(z, z) <= z,
    decreases k,
{
    lemma_mul_value_bounds(z, z);
    if k > 0 {
        lemma_ln_power_shrinks(z, (k - 1) as nat);
    }
    lemma_mul_value_bounds(ln_power(z, k), mul_value(z, z));
}

/// Once an odd power of `z` is zero, the logarithm series stays as it is.
pub proof fn lemma_ln_series_settles(z: int, i: nat, k: nat)
    requires
        i <= k,
        ln_power(z, i) == 0,
    ensures
        ln_series(z, k) == ln_series(z, i),
        ln_power(z, k) == 0,
    decreases k,
{
    if i < k {
        lemma_ln_series_settles(z, i, (k - 1) as nat);
        assert(0 * mul_value(z, z) == 0) by (nonlinear_arith);
    }
}

/// The partial sums of the logarithm series of a `z` in `[0, 1.0]` are not
/// negative, and each term is at most `z`.
pub proof fn lemma_ln_series_bounds(z: int, k: nat)
    requires
        0 <= z <= PRECISION_U64,
    ensures
        0 <= ln_series(z, k) <= k * z,
    decreases k,
{
    if k > 0 {
        lemma_ln_series_bounds(z, (k - 1) as nat);
        lemma_ln_power_shrinks(z, (k - 1) as nat);
        lemma_div_is_ordered_by_denominator(ln_power(z, (k - 1) as nat), 1, 2 * k - 1);
        lemma_div_pos_is_pos(ln_power(z, (k - 1) as nat), 2 * k - 1);
        assert(k * z == (k - 1) * z + z) by (nonlinear_arith);
    }
}

/// The logarithm series grows with its argument, term by term.
pub proof fn lemma_ln_series_monotone(z: int, z2: int, k: nat)
    requires
        0 <= z <= z2 <= PRECISION_U64,
    ensures
        ln_power(z, k) <= ln_power(z2, k),
        ln_series(z, k) <= ln_series(z2, k),
    decreases k,
{
    lemma_mul_value_bounds(z, z);
    lemma_mul_value_monotone(z, z2, z, z2);
    if k > 0 {
        lemma_ln_series_monotone(z, z2, (k - 1) as nat);
        lemma_ln_power_shrinks(z, (k - 1) as nat);
        lemma_div_is_ordered(
            ln_power(z, (k - 1) as nat),
            ln_power(z2, (k - 1) as nat),
            2 * k - 1,
        );
        lemma_mul_value_monotone(
            ln_power(z, (k - 1) as nat),
            ln_power(z2, (k - 1) as nat),
            mul_value(z, z),
            mul_value(z2, z2),
        );
    }
}

/// The argument of the series for a mantissa in `[1.0, 2.0)` lies between
/// zero and a third, and grows with the mantissa.
pub proof fn lemma_ln_argument_range(m: int)
    requires
        PRECISION_U64 <= m < 2 * PRECISION_U64,
    ensures
        0 <= ln_argument(m) <= 333_333_333,
        m == PRECISION_U64 ==> ln_argument(m) == 0,
{
    let p = PRECISION_U64 as int;
    let top = (m - p) * p;
    let bottom = m + p;
    lemma_div_pos_is_pos(top, bottom);
    // three times the top is less than the bottom times `10^9`
    assert(top * 3 < bottom * p) by (nonlinear_arith)
        requires
            top == (m - p) * p,
            bottom == m + p,
            p <= m < 2 * p,
            p == 1_000_000_000,
    ;
    lemma_quotient_below(top, bottom, 333_333_334);
}

/// A quotient is below `bound` where the dividend is below the divisor times `bound`.
pub proof fn lemma_quotient_below(a: int, b: int, bound: int)
    requires
        0 <= a,
        0 < b,
        a < b * bound,
    ensures
        a / b < bound,
{
    lemma_fundamental_div_mod(a, b);
    lemma_mod_bound(a, b);
    assert(a / b < bound) by (nonlinear_arith)
        requires
            a == b * (a / b) + a % b,
            0 <= a % b < b,
            a < b * bound,
            0 < b,
    ;
}

/// A quotient of non-negative numbers grows where the cross products say so.
pub proof fn lemma_quotients_ordered(a: int, b: int, c: int, d: int)
    requires
        0 <= a,
        0 <= c,
        0 < b,
        0 < d,
        a * d <= c * b,
    ensures
        a / b <= c / d,
{
    lemma_fundamental_div_mod(a, b);
    lemma_mod_bound(a, b);
    lemma_fundamental_div_mod(c, d);
    lemma_mod_bound(c, d);
    let q = a / b;
    let r = c / d;
    assert(q <= r) by (nonlinear_arith)
        requires
            a == b * q + a % b,
            0 <= a % b < b,
            c == d * r + c % d,
            0 <= c % d < d,
            a * d <= c * b,
            0 < b,
            0 < d,
    ;
}

/// The argument of the series grows with the mantissa.
pub proof fn lemma_ln_argument_monotone(m: int, m2: int)
    requires
        PRECISION_U64 <= m <= m2,
    ensures
        ln_argument(m) <= ln_argument(m2),
{
    let p = PRECISION_U64 as int;
    assert((m - p) * p * (m2 + p) <= (m2 - p) * p * (m + p)) by (nonlinear_arith)
        requires
            p <= m <= m2,
            p == 1_000_000_000,
    ;
    assert(0 <= (m - p) * p && 0 <= (m2 - p) * p) by (nonlinear_arith)
        requires
            p <= m <= m2,
            p == 1_000_000_000,
    ;
    lemma_quotients_ordered((m - p) * p, m + p, (m2 - p) * p, m2 + p);
}

/// Twice the series at a third is at most `ln 2`.
pub proof fn lemma_ln_series_top()
    ensures
        2 * ln_series(333_333_333, LN_TERMS as nat) == 693_147_174,
{
    let z = 333_333_333int;
    assert(mul_value(z, z) == 111_111_110);
    assert(ln_power(z, 0) == 333_333_333);
    assert(ln_power(z, 1) == 37_037_036);
    assert(ln_power(z, 2) == 4_115_226);
    assert(ln_power(z, 3) == 457_247);
    assert(ln_power(z, 4) == 50_805);
    assert(ln_power(z, 5) == 5_644);
    assert(ln_power(z, 6) == 627);
    assert(ln_power(z, 7) == 69);
    assert(ln_power(z, 8) == 7);
    assert(ln_series(z, 0) == 0);
    assert(ln_series(z, 1) == ln_series(z, 0) + ln_power(z, 0) / 1);
    assert(ln_series(z, 1) == 333_333_333);
    assert(ln_series(z, 2) == ln_series(z, 1) + ln_power(z, 1) / 3);
    assert(ln_series(z, 2) == 345_679_011);
    assert(ln_series(z, 3) == ln_series(z, 2) + ln_power(z, 2) / 5);
    assert(ln_series(z, 3) == 346_502_056);
    assert(ln_series(z, 4) == ln_series(z, 3) + ln_power(z, 3) / 7);
    assert(ln_series(z, 4) == 346_567_377);
    assert(ln_series(z, 5) == ln_series(z, 4) + ln_power(z, 4) / 9);
    assert(ln_series(z, 5) == 346_573_022);
    assert(ln_series(z, 6) == ln_series(z, 5) + ln_power(z, 5) / 11);
    assert(ln_series(z, 6) == 346_573_535);
    assert(ln_series(z, 7) == ln_series(z, 6) + ln_power(z, 6) / 13);
    assert(ln_series(z, 7) == 346_573_583);
    assert(ln_series(z, 8) == ln_series(z, 7) + ln_power(z, 7) / 15);
    assert(ln_series(z, 8) == 346_573_587);
    assert(ln_series(z, 9) == ln_series(z, 8) + ln_power(z, 8) / 17);
    assert(ln_series(z, 9) == 346_573_587);
}

/// `ln x` for `x >= 1.0` is at least zero, at most `ln 2` for each halving
/// and one more, and below 26.0.
pub proof fn lemma_ln_above_one_bounds(x: int)
    requires
        PRECISION_U64 <= x <= u64::MAX,
    ensures
        0 <= ln_above_one(x) <= (halvings(x) + 1) * LN_2,
        ln_above_one(x) <= 26 * PRECISION_U64,
        halvings(x) <= 35,
{
    lemma_ln_mantissa_part(x);
    lemma_halvings_of_u64(x as u64);
    let h = halvings(x) as int;
    assert(0 <= h * LN_2 <= 35 * LN_2 && (h + 1) * LN_2 == h * LN_2 + LN_2) by (nonlinear_arith)
        requires
            0 <= h <= 35,
            LN_2 == 693_147_181,
    ;
}

/// The part of `ln x` that comes from the mantissa lies between zero and `ln 2`.
pub proof fn lemma_ln_mantissa_part(x: int)
    requires
        PRECISION_U64 <= x,
    ensures
        0 <= 2 * ln_series(ln_argument(mantissa(x)), LN_TERMS as nat) <= 693_147_174,
{
    lemma_mantissa_range(x);
    let z = ln_argument(mantissa(x));
    lemma_ln_argument_range(mantissa(x));
    lemma_ln_series_bounds(z, LN_TERMS as nat);
    lemma_ln_series_monotone(z, 333_333_333, LN_TERMS as nat);
    lemma_ln_series_top();
}

/// The logarithm never falls as its argument grows.
pub proof fn lemma_ln_monotone(x: int, x2: int)
    requires
        PRECISION_U64 <= x <= x2,
    ensures
        ln_above_one(x) <= ln_above_one(x2),
    decreases x2,
{
    let two = 2 * PRECISION_U64;
    if x2 < two {
        lemma_ln_argument_monotone(x, x2);
        lemma_ln_argument_range(x);
        lemma_ln_argument_range(x2);
        lemma_ln_series_monotone(ln_argument(x), ln_argument(x2), LN_TERMS as nat);
    } else if x >= two {
        lemma_ln_monotone(x / 2, x2 / 2);
        lemma_ln_halved(x);
        lemma_ln_halved(x2);
    } else {
        lemma_ln_mantissa_part(x);
        lemma_ln_mantissa_part(x2 / 2);
        lemma_ln_halved(x2);
        assert(halvings(x2 / 2) * LN_2 >= 0) by (nonlinear_arith)
            requires
                halvings(x2 / 2) >= 0,
                LN_2 == 693_147_181,
        ;
    }
}

/// From `2.0` up, the logarithm is `ln 2` more than that of the half.
pub proof fn lemma_ln_halved(x: int)
    requires
        x >= 2 * PRECISION_U64,
    ensures
        ln_above_one(x) == ln_above_one(x / 2) + LN_2,
{
    let h = halvings(x / 2) as int;
    assert((1 + h) * LN_2 == h * LN_2 + LN_2) by (nonlinear_arith);
}

/// The inverse of a positive number below `1.0` lies in `[1.0, 10^9]`.
pub proof fn lemma_inverse_range(x: int)
    requires
        0 < x <= PRECISION_U64,
    ensures
        PRECISION_U64 <= div_value(PRECISION_U64 as int, x) <= PRECISION_U64 * PRECISION_U64,
{
    let p = PRECISION_U64 as int;
    lemma_div_is_ordered_by_denominator(p * p, x, p);
}

/// With a base of at least `1.0`, square-and-multiply never falls below
/// what it started from, and from `1.0` or more it reaches at least the base.
pub proof fn lemma_int_pow_grows(acc: int, cur: int, n: nat)
    requires
        0 <= acc,
        PRECISION_U64 <= cur,
    ensures
        int_pow_from(acc, cur, n) >= acc,
        n >= 1 && acc >= PRECISION_U64 ==> int_pow_from(acc, cur, n) >= cur,
    decreases n,
{
    if n > 0 {
        lemma_mul_value_bounds(acc, cur);
        lemma_mul_value_bounds(cur, cur);
        let next_acc = if n % 2 == 1 {
            mul_value(acc, cur)
        } else {
            acc
        };
        lemma_int_pow_grows(next_acc, mul_value(cur, cur), n / 2);
    }
}

/// With a base of at most `1.0`, square-and-multiply never rises above
/// what it started from.
pub proof fn lemma_int_pow_shrinks(acc: int, cur: int, n: nat)
    requires
        0 <= acc,
        0 <= cur <= PRECISION_U64,
    ensures
        0 <= int_pow_from(acc, cur, n) <= acc,
    decreases n,
{
    if n > 0 {
        lemma_mul_value_bounds(acc, cur);
        lemma_mul_value_bounds(cur, cur);
        let next_acc = if n % 2 == 1 {
            mul_value(acc, cur)
        } else {
            acc
        };
        lemma_int_pow_shrinks(next_acc, mul_value(cur, cur), n / 2);
    }
}

/// Every whole power of `1.0` is `1.0`.
pub proof fn lemma_int_pow_of_one(n: nat)
    ensures
        int_pow_value(PRECISION_U64 as int, n) == PRECISION_U64,
{
    lemma_int_pow_of_one_from(n);
}

proof fn lemma_int_pow_of_one_from(n: nat)
    ensures
        int_pow_from(PRECISION_U64 as int, PRECISION_U64 as int, n) == PRECISION_U64,
    decreases n,
{
    if n > 0 {
        lemma_int_pow_of_one_from(n / 2);
    }
}

/// The exponential of anything up to 22.0 fits in 64 bits with room to spare.
pub proof fn lemma_exp_value_bounded(x: int)
    requires
        0 <= x <= 22 * PRECISION_U64,
    ensures
        PRECISION_U64 <= exp_value(x) <= 170_975_255_423_561_487,
{
    let top = 22 * PRECISION_U64;
    lemma_exp_monotone(x, top, EXP_TERMS as nat);
    lemma_exp_sum_grows(x, 0, EXP_TERMS as nat);
    assert(exp_term(top, 0) == 1_000_000_000);
    assert(exp_term(top, 1) == 22_000_000_000);
    assert(exp_term(top, 2) == 242_000_000_000);
    assert(exp_term(top, 3) == 1_774_666_666_586);
    assert(exp_term(top, 4) == 9_760_666_666_223);
    assert(exp_term(top, 5) == 42_946_933_331_381);
    assert(exp_term(top, 6) == 157_472_088_853_099);
    assert(exp_term(top, 7) == 494_912_279_117_620);
    assert(exp_term(top, 8) == 1_361_008_767_573_455);
    assert(exp_term(top, 9) == 3_326_910_320_130_219);
    assert(exp_term(top, 10) == 7_319_202_704_286_481);
    assert(exp_term(top, 11) == 14_638_405_408_572_962);
    assert(exp_term(top, 12) == 26_837_076_577_504_295);
    assert(exp_term(top, 13) == 45_416_591_122_903_552);
    assert(exp_term(top, 14) == 71_368_928_887_955_614);
    assert(exp_sum(top, 0) == 1_000_000_000);
    assert(exp_sum(top, 1) == 23_000_000_000);
    assert(exp_sum(top, 2) == 265_000_000_000);
    assert(exp_sum(top, 3) == 2_039_666_666_586);
    assert(exp_sum(top, 4) == 11_800_333_332_809);
    assert(exp_sum(top, 5) == 54_747_266_664_190);
    assert(exp_sum(top, 6) == 212_219_355_517_289);
    assert(exp_sum(top, 7) == 707_131_634_634_909);
    assert(exp_sum(top, 8) == 2_068_140_402_208_364);
    assert(exp_sum(top, 9) == 5_395_050_722_338_583);
    assert(exp_sum(top, 10) == 12_714_253_426_625_064);
    assert(exp_sum(top, 11) == 27_352_658_835_198_026);
    assert(exp_sum(top, 12) == 54_189_735_412_702_321);
    assert(exp_sum(top, 13) == 99_606_326_535_605_873);
    assert(exp_sum(top, 14) == 170_975_255_423_561_487);
}

/// The power by a fraction of a base from the smallest positive number up to
/// `MAX_SAFE_BASE`: every step of it fits, and it lies on the same side of
/// `1.0` as the base.
pub proof fn lemma_frac_pow_bounds(base: int, f: int)
    requires
        1 <= base <= MAX_SAFE_BASE,
        0 <= f < PRECISION_U64,
    ensures
        0 <= frac_pow_value(base, f) <= 170_975_255_423_561_487,
        base >= PRECISION_U64 ==> {
            &&& 0 <= mul_value(ln_above_one(base), f) <= 22 * PRECISION_U64
            &&& frac_pow_value(base, f) >= PRECISION_U64
        },
        base <= PRECISION_U64 ==> frac_pow_value(base, f) <= PRECISION_U64,
        base < PRECISION_U64 ==> {
            let inverse = div_value(PRECISION_U64 as int, base);
            let grown = exp_value(mul_value(ln_above_one(inverse), f));
            &&& PRECISION_U64 <= inverse <= PRECISION_U64 * PRECISION_U64
            &&& 0 <= mul_value(ln_above_one(inverse), f) <= 22 * PRECISION_U64
            &&& PRECISION_U64 <= grown <= 170_975_255_423_561_487
        },
{
    let p = PRECISION_U64 as int;
    if base >= p {
        lemma_ln_above_one_bounds(base);
        lemma_mantissa_range(base);
        lemma2_to64();
        lemma_halvings_bounded(base, 3);
        let h = halvings(base) as int;
        assert((h + 1) * LN_2 <= 4 * LN_2) by (nonlinear_arith)
            requires
                0 <= h <= 3,
                LN_2 == 693_147_181,
        ;
        lemma_mul_value_bounds(ln_above_one(base), f);
        lemma_exp_value_bounded(mul_value(ln_above_one(base), f));
        if base == p {
            lemma_ln_of_one();
            lemma_exp_of_zero();
        }
    } else {
        lemma_inverse_range(base);
        let inverse = div_value(p, base);
        lemma_ln_above_one_bounds(inverse);
        lemma_mantissa_range(inverse);
        lemma2_to64();
        lemma_halvings_bounded(inverse, 29);
        let h = halvings(inverse) as int;
        assert((h + 1) * LN_2 <= 30 * LN_2) by (nonlinear_arith)
            requires
                0 <= h <= 29,
                LN_2 == 693_147_181,
        ;
        lemma_mul_value_bounds(ln_above_one(inverse), f);
        let grown = exp_value(mul_value(ln_above_one(inverse), f));
        lemma_exp_value_bounded(mul_value(ln_above_one(inverse), f));
        lemma_div_is_ordered_by_denominator(p * p, p, grown);
    }
}

/// `ln 1.0` is zero.
pub proof fn lemma_ln_of_one()
    ensures
        ln_above_one(PRECISION_U64 as int) == 0,
{
    lemma_ln_argument_range(PRECISION_U64 as int);
    lemma_ln_series_settles(0, 0, LN_TERMS as nat);
}

/// The identities of the power: a zero exponent gives `1.0`, the exponent
/// `1.0` gives the base, and every power of `1.0` is `1.0`.
pub proof fn lemma_pow_core_identities(base: int, exp: int)
    requires
        1 <= base <= MAX_SAFE_BASE,
        0 <= exp,
    ensures
        exp == 0 ==> pow_core_value(base, exp) == PRECISION_U64,
        exp == PRECISION_U64 ==> pow_core_value(base, exp) == base,
        base == PRECISION_U64 ==> pow_core_value(base, exp) == PRECISION_U64,
        exp % (PRECISION_U64 as int) == 0 ==> pow_core_value(base, exp) == int_pow_value(
            base,
            (exp / (PRECISION_U64 as int)) as nat,
        ),
{
    let p = PRECISION_U64 as int;
    lemma_frac_pow_of_zero(base);
    lemma_mul_value_one(base);
    if exp % p == 0 {
        let n = (exp / p) as nat;
        if base >= p {
            lemma_int_pow_grows(p, base, n);
        } else {
            lemma_int_pow_shrinks(p, base, n);
        }
    }
    if exp == p {
        assert(int_pow_from(mul_value(p, base), mul_value(base, base), 0) == base);
    }
    if base == p {
        lemma_int_pow_of_one((exp / p) as nat);
        lemma_ln_of_one();
    }
}

/// The power by the fraction zero is `1.0`.
pub proof fn lemma_frac_pow_of_zero(base: int)
    requires
        1 <= base <= MAX_SAFE_BASE,
    ensures
        frac_pow_value(base, 0) == PRECISION_U64,
{
    lemma_exp_of_zero();
}

/// A power lies on the same side of `1.0` as its base.
pub proof fn lemma_pow_core_bounds(base: int, exp: int)
    requires
        1 <= base <= MAX_SAFE_BASE,
        0 <= exp,
    ensures
        0 <= pow_core_value(base, exp),
        base <= PRECISION_U64 ==> pow_core_value(base, exp) <= PRECISION_U64,
        base <= PRECISION_U64 ==> int_pow_value(base, (exp / (PRECISION_U64 as int)) as nat)
            <= PRECISION_U64,
        base >= PRECISION_U64 ==> pow_core_value(base, exp) >= PRECISION_U64,
        base >= PRECISION_U64 ==> pow_core_value(base, exp) >= int_pow_value(
            base,
            (exp / (PRECISION_U64 as int)) as nat,
        ),
{
    let p = PRECISION_U64 as int;
    let n = (exp / p) as nat;
    lemma_frac_pow_bounds(base, exp % p);
    if base >= p {
        lemma_int_pow_grows(p, base, n);
    }
    if base <= p {
        lemma_int_pow_shrinks(p, base, n);
    }
    lemma_mul_value_bounds(int_pow_value(base, n), frac_pow_value(base, exp % p));
}

/// Square-and-multiply grows with what it starts from and with the base.
pub proof fn lemma_int_pow_monotone(acc: int, acc2: int, cur: int, cur2: int, n: nat)
    requires
        0 <= acc <= acc2,
        0 <= cur <= cur2,
    ensures
        0 <= int_pow_from(acc, cur, n) <= int_pow_from(acc2, cur2, n),
    decreases n,
{
    if n > 0 {
        lemma_mul_value_monotone(acc, acc2, cur, cur2);
        lemma_mul_value_monotone(cur, cur2, cur, cur2);
        lemma_mul_value_monotone(0, acc, 0, cur);
        lemma_mul_value_monotone(0, cur, 0, cur);
        assert(mul_value(0, 0) == 0);
        if n % 2 == 1 {
            lemma_int_pow_monotone(
                mul_value(acc, cur),
                mul_value(acc2, cur2),
                mul_value(cur, cur),
                mul_value(cur2, cur2),
                n / 2,
            );
        } else {
            lemma_int_pow_monotone(acc, acc2, mul_value(cur, cur), mul_value(cur2, cur2), n / 2);
        }
    }
}

/// The power by a fraction grows with a base of at most `1.0`.
pub proof fn lemma_frac_pow_monotone(base: int, base2: int, f: int)
    requires
        1 <= base <= base2 <= PRECISION_U64,
        0 <= f < PRECISION_U64,
    ensures
        frac_pow_value(base, f) <= frac_pow_value(base2, f),
{
    let p = PRECISION_U64 as int;
    lemma_frac_pow_bounds(base, f);
    lemma_frac_pow_bounds(base2, f);
    if base2 == p {
        lemma_ln_of_one();
        lemma_exp_of_zero();
        assert(mul_value(0, f) == 0) by (nonlinear_arith)
            requires
                mul_value(0, f) == 0 * f / 1_000_000_000,
        ;
    } else {
        lemma_inverse_range(base);
        lemma_inverse_range(base2);
        let inverse = div_value(p, base);
        let inverse2 = div_value(p, base2);
        lemma_div_is_ordered_by_denominator(p * p, base, base2);
        lemma_ln_monotone(inverse2, inverse);
        lemma_ln_above_one_bounds(inverse);
        lemma_ln_above_one_bounds(inverse2);
        let x = mul_value(ln_above_one(inverse), f);
        let x2 = mul_value(ln_above_one(inverse2), f);
        lemma_mul_value_monotone(ln_above_one(inverse2), ln_above_one(inverse), f, f);
        lemma_mul_value_bounds(ln_above_one(inverse2), f);
        lemma_exp_monotone(x2, x, EXP_TERMS as nat);
        lemma_exp_sum_grows(x2, 0, EXP_TERMS as nat);
        lemma_div_is_ordered_by_denominator(p * p, exp_value(x2), exp_value(x));
    }
}

/// A power grows with a base of at most `1.0`.
pub proof fn lemma_pow_core_monotone(base: int, base2: int, exp: int)
    requires
        1 <= base <= base2 <= PRECISION_U64,
        0 <= exp,
    ensures
        0 <= pow_core_value(base, exp) <= pow_core_value(base2, exp) <= PRECISION_U64,
{
    let p = PRECISION_U64 as int;
    let n = (exp / p) as nat;
    let f = exp % p;
    lemma_pow_core_bounds(base, exp);
    lemma_pow_core_bounds(base2, exp);
    lemma_int_pow_monotone(p, p, base, base2, n);
    lemma_frac_pow_monotone(base, base2, f);
    lemma_frac_pow_bounds(base, f);
    lemma_mul_value_monotone(
        int_pow_value(base, n),
        int_pow_value(base2, n),
        frac_pow_value(base, f),
        frac_pow_value(base2, f),
    );
}

} // verus!
