//! What holds of the market maker whatever it is asked to do.
//!
//! Each theorem is stated over the outcome functions that the operations'
//! own contracts use, so it holds of every call.

use vstd::prelude::*;
use vstd::arithmetic::div_mod::{
    lemma_div_by_multiple, lemma_div_by_self, lemma_div_is_ordered,
    lemma_div_is_ordered_by_denominator, lemma_hoist_over_denominator,
};
use crate::constants::{FEE_PRECISION, MIN_BUY_AMOUNT, MIN_SELL_AMOUNT, PRECISION_U64};
use crate::errors::SwifeyError;
use crate::instructions::launch::{launch_fault, launched_curve};
use crate::instructions::migrate::{Migrate, MigrateParams};
use crate::instructions::swap::Swap;
use crate::states::bonding_curve::{
    buy_quote, crr_value, inverse_crr_value, is_sell_payout, lemma_ratio_at_most_one,
    lemma_sell_payout_exists, lemma_smaller_payout_keeps_curve, lemma_tokens_for_ordered,
    payout_keeps_curve, quote, sell_curve_value, sell_payout, sell_quote, sell_target,
    BondingCurve, DIRECTION_BUY, DIRECTION_SELL, SELL_MARGIN,
};
use crate::states::config::Config;
use crate::utils::fixed_math::{
    div_value, fee_value, lemma_fee_at_most_amount, ln_value, pow_fits, pow_value,
    reduced_base, tens, MAX_SAFE_BASE,
};
use crate::utils::fixed_math_lemmas::{
    lemma_inverse_range, lemma_ln_above_one_bounds, lemma_ln_monotone, lemma_mul_value_bounds,
    lemma_mul_value_monotone, lemma_pow_core_bounds, lemma_pow_core_identities,
    lemma_pow_core_monotone,
};
use crate::utils::transfers::{buy_plan, migration_plan, sell_plan, Balances, Transfer};

verus! {

impl BondingCurve {
    /// Whether the completion mark is up to date under `config`: a curve
    /// whose virtual base-currency reserve has reached the limit is complete.
    pub open spec fn limit_respected(self, config: Config) -> bool {
        self.virtual_sol_reserve >= config.curve_limit ==> self.is_completed
    }
}

/// After the divisions by ten a base above `MAX_SAFE_BASE` lies between
/// `1.0` and `MAX_SAFE_BASE`.
pub proof fn lemma_reduced_base_range(base: int)
    requires
        base >= PRECISION_U64,
    ensures
        PRECISION_U64 <= reduced_base(base) <= MAX_SAFE_BASE,
        base <= MAX_SAFE_BASE ==> reduced_base(base) == base,
    decreases base,
{
    if base > MAX_SAFE_BASE {
        lemma_reduced_base_range(base / 10);
    }
}

/// Any positive base to the power zero is exactly `1.0`, and `1.0` to any
/// power is exactly `1.0`; `fixed_pow` returns both.
pub proof fn lemma_pow_identities(base: int, exp: int)
    requires
        0 < base,
        0 <= exp,
    ensures
        pow_value(base, 0) == PRECISION_U64 && pow_fits(base, 0),
        pow_value(PRECISION_U64 as int, exp) == PRECISION_U64 && pow_fits(
            PRECISION_U64 as int,
            exp,
        ),
{
    let p = PRECISION_U64 as int;
    lemma_pow_core_identities(p, exp);
    if base <= MAX_SAFE_BASE {
        lemma_pow_core_identities(base, 0);
    } else {
        lemma_reduced_base_range(base);
        assert(tens(base) * 0 == 0) by (nonlinear_arith);
        lemma_pow_core_identities(MAX_SAFE_BASE as int, 0);
    }
}

/// The logarithm never falls as its argument grows, on either side of `1.0`.
pub proof fn lemma_ln_is_monotone(x: u64, larger: u64)
    requires
        0 < x <= larger,
    ensures
        ln_value(x as int) <= ln_value(larger as int),
{
    let p = PRECISION_U64 as int;
    if x >= p {
        lemma_ln_monotone(x as int, larger as int);
    } else {
        lemma_inverse_range(x as int);
        lemma_ln_above_one_bounds(div_value(p, x as int));
        if larger >= p {
            lemma_ln_above_one_bounds(larger as int);
        } else {
            lemma_inverse_range(larger as int);
            lemma_div_is_ordered_by_denominator(p * p, x as int, larger as int);
            lemma_ln_monotone(div_value(p, larger as int), div_value(p, x as int));
        }
    }
}

/// A power never falls as a base of at most `1.0` grows.
pub proof fn lemma_pow_is_monotone(base: u64, larger: u64, exp: u64)
    requires
        0 < base <= larger <= PRECISION_U64,
    ensures
        pow_value(base as int, exp as int) <= pow_value(larger as int, exp as int),
{
    lemma_pow_core_monotone(base as int, larger as int, exp as int);
}

/// A power of a positive base of at most `1.0` is at most `1.0`, never
/// negative, and `fixed_pow` returns it.
pub proof fn lemma_pow_of_fraction(base: int, exp: int)
    requires
        0 < base <= PRECISION_U64,
        0 <= exp,
    ensures
        0 <= pow_value(base, exp) <= PRECISION_U64,
        pow_fits(base, exp),
{
    lemma_pow_core_bounds(base, exp);
}

/// A buy quote, where there is one, takes the fee at the configured rate
/// out of the amount paid in and hands out no more tokens than the reserve holds.
pub proof fn lemma_buy_quote_bounds(
    virtual_sol: u64,
    virtual_token: u64,
    amount_in: u64,
    fee_percentage: u64,
)
    requires
        buy_quote(virtual_sol, virtual_token, amount_in, fee_percentage) is Ok,
    ensures
        ({
            let (amount_out, fee) = buy_quote(
                virtual_sol,
                virtual_token,
                amount_in,
                fee_percentage,
            )->Ok_0;
            &&& fee == fee_value(amount_in as int, fee_percentage as int)
            &&& fee <= amount_in
            &&& amount_out <= virtual_token
            &&& virtual_sol + amount_in - fee <= u64::MAX
        }),
{
    let fee = fee_value(amount_in as int, fee_percentage as int);
    let new_sol = virtual_sol + amount_in - fee;
    let ratio = div_value(virtual_sol as int, new_sol);
    lemma_ratio_at_most_one(virtual_sol as int, new_sol);
    lemma_pow_of_fraction(ratio, crr_value());
    lemma_mul_value_bounds(virtual_token as int, PRECISION_U64 - pow_value(ratio, crr_value()));
}

/// A sell quote, where there is one, pays out no more base currency than
/// the reserve holds, and its fee is the configured rate of what it pays out.
pub proof fn lemma_sell_quote_bounds(
    virtual_sol: u64,
    virtual_token: u64,
    amount_in: u64,
    fee_percentage: u64,
)
    requires
        sell_quote(virtual_sol, virtual_token, amount_in, fee_percentage) is Ok,
    ensures
        ({
            let (amount_out, fee) = sell_quote(
                virtual_sol,
                virtual_token,
                amount_in,
                fee_percentage,
            )->Ok_0;
            &&& fee == fee_value(amount_out as int, fee_percentage as int)
            &&& amount_out <= virtual_sol
            &&& virtual_token + amount_in <= u64::MAX
        }),
{
    lemma_sell_payout_bounds(virtual_sol, virtual_token, amount_in);
}

/// When a quote is owed. With positive reserves and a fee rate of at most
/// 100%, a buy of at least `MIN_BUY_AMOUNT` is quoted unless the new reserve
/// does not fit in 64 bits or is more than `10^9` times the old one; a sell
/// is quoted unless the new token reserve does not fit or is more than
/// `10^9` times the old one.
pub proof fn lemma_quotes_are_owed(
    virtual_sol: u64,
    virtual_token: u64,
    amount_in: u64,
    fee_percentage: u64,
)
    requires
        virtual_sol > 0,
        virtual_token > 0,
        fee_percentage <= FEE_PRECISION,
    ensures
        amount_in >= MIN_BUY_AMOUNT && virtual_sol + amount_in <= u64::MAX && virtual_sol
            + amount_in <= virtual_sol * PRECISION_U64 ==> buy_quote(
            virtual_sol,
            virtual_token,
            amount_in,
            fee_percentage,
        ) is Ok,
        virtual_token + amount_in <= u64::MAX && virtual_token + amount_in <= virtual_token
            * PRECISION_U64 ==> sell_quote(virtual_sol, virtual_token, amount_in, fee_percentage)
            is Ok,
{
    let p = PRECISION_U64 as int;
    lemma_fee_at_most_amount(amount_in as int, fee_percentage as int);
    let new_sol = virtual_sol + amount_in - fee_value(amount_in as int, fee_percentage as int);
    if new_sol <= virtual_sol * p {
        lemma_div_is_ordered(new_sol, virtual_sol * p, new_sol);
        lemma_div_by_self(new_sol);
    }
    let new_token = virtual_token + amount_in;
    if new_token <= virtual_token * p {
        lemma_div_is_ordered(new_token, virtual_token * p, new_token);
        lemma_div_by_self(new_token);
        lemma_sell_payout_bounds(virtual_sol, virtual_token, amount_in);
        lemma_fee_at_most_amount(
            sell_payout(virtual_sol, virtual_token, amount_in),
            fee_percentage as int,
        );
    }
}

/// What a sell is quoted lies between nothing and what the curve alone
/// gives, which is no more than the base-currency reserve; and it keeps the
/// curve whole.
pub proof fn lemma_sell_payout_bounds(virtual_sol: u64, virtual_token: u64, amount_in: u64)
    requires
        virtual_token > 0,
        div_value(virtual_token as int, virtual_token + amount_in) > 0,
    ensures
        0 <= sell_payout(virtual_sol, virtual_token, amount_in) <= sell_target(
            virtual_sol,
            virtual_token,
            amount_in,
        ) <= sell_curve_value(virtual_sol, virtual_token, amount_in) <= virtual_sol,
        is_sell_payout(
            virtual_sol,
            virtual_token,
            amount_in,
            sell_payout(virtual_sol, virtual_token, amount_in),
        ),
{
    let new_token = virtual_token + amount_in;
    let ratio = div_value(virtual_token as int, new_token);
    lemma_ratio_at_most_one(virtual_token as int, new_token);
    lemma_pow_of_fraction(ratio, inverse_crr_value());
    lemma_mul_value_bounds(
        virtual_sol as int,
        PRECISION_U64 - pow_value(ratio, inverse_crr_value()),
    );
    lemma_mul_value_bounds(virtual_sol as int, SELL_MARGIN as int);
    lemma_sell_payout_exists(virtual_sol, virtual_token, amount_in);
}

/// A payout that keeps the curve whole for a sale keeps it whole for a
/// larger sale too.
pub proof fn lemma_larger_sale_keeps_curve(
    virtual_sol: u64,
    virtual_token: u64,
    amount_in: u64,
    larger_amount_in: u64,
    payout: int,
)
    requires
        amount_in <= larger_amount_in,
        0 <= payout <= virtual_sol,
        0 < virtual_sol,
        payout_keeps_curve(virtual_sol, virtual_token, amount_in, payout),
    ensures
        payout_keeps_curve(virtual_sol, virtual_token, larger_amount_in, payout),
{
    if payout > 0 {
        let p = PRECISION_U64 as int;
        let ratio = div_value(virtual_sol - payout, virtual_sol as int);
        lemma_ratio_at_most_one(virtual_sol - payout, virtual_sol as int);
        let token = virtual_token + amount_in;
        let step = larger_amount_in - amount_in;
        if ratio > 0 {
            lemma_pow_of_fraction(ratio, crr_value());
            let share = PRECISION_U64 - pow_value(ratio, crr_value());
            // the larger reserve hands out at most `step` more
            assert((token + step) * share <= token * share + step * p) by (nonlinear_arith)
                requires
                    0 <= share <= p,
                    0 <= step,
            ;
            lemma_div_is_ordered((token + step) * share, token * share + step * p, p);
            lemma_hoist_over_denominator(token * share, step, p as nat);
        }
    }
}

/// What is left of a payment after the fee never falls as the payment grows.
pub proof fn lemma_net_amount_monotone(amount: int, amount2: int, fee_percentage: int)
    requires
        0 <= amount <= amount2,
        0 <= fee_percentage <= FEE_PRECISION,
    ensures
        amount - fee_value(amount, fee_percentage) <= amount2 - fee_value(
            amount2,
            fee_percentage,
        ),
{
    let d = FEE_PRECISION as int;
    let step = amount2 - amount;
    assert(amount2 * fee_percentage <= amount * fee_percentage + step * d) by (nonlinear_arith)
        requires
            amount2 == amount + step,
            0 <= step,
            0 <= fee_percentage <= d,
    ;
    lemma_div_is_ordered(amount2 * fee_percentage, amount * fee_percentage + step * d, d);
    lemma_hoist_over_denominator(amount * fee_percentage, step, d as nat);
}

/// A buy that is quoted is charged at a rate of at most 100%.
pub proof fn lemma_quoted_buy_fee_rate(
    virtual_sol: u64,
    virtual_token: u64,
    amount_in: u64,
    fee_percentage: u64,
)
    requires
        buy_quote(virtual_sol, virtual_token, amount_in, fee_percentage) is Ok,
    ensures
        fee_percentage <= FEE_PRECISION,
{
    let d = FEE_PRECISION as int;
    if fee_percentage > d {
        assert(amount_in * fee_percentage >= amount_in * d + 1 * d) by (nonlinear_arith)
            requires
                amount_in >= 1_000_000,
                fee_percentage >= d + 1,
                d == 10_000,
        ;
        lemma_div_is_ordered(amount_in * d + 1 * d, amount_in * fee_percentage, d);
        lemma_hoist_over_denominator(amount_in * d, 1, d as nat);
        lemma_div_by_multiple(amount_in as int, d);
    }
}

/// The quote never falls as the amount paid in grows: a larger buy is
/// quoted at least as many tokens, a larger sell at least as much base
/// currency.
pub proof fn lemma_quote_is_monotone(
    virtual_sol: u64,
    virtual_token: u64,
    amount_in: u64,
    larger_amount_in: u64,
    direction: u8,
    fee_percentage: u64,
)
    requires
        amount_in <= larger_amount_in,
        quote(virtual_sol, virtual_token, amount_in, direction, fee_percentage) is Ok,
        quote(virtual_sol, virtual_token, larger_amount_in, direction, fee_percentage) is Ok,
    ensures
        quote(virtual_sol, virtual_token, amount_in, direction, fee_percentage)->Ok_0.0 <= quote(
            virtual_sol,
            virtual_token,
            larger_amount_in,
            direction,
            fee_percentage,
        )->Ok_0.0,
{
    let p = PRECISION_U64 as int;
    if direction == DIRECTION_BUY {
        lemma_quoted_buy_fee_rate(virtual_sol, virtual_token, amount_in, fee_percentage);
        lemma_net_amount_monotone(
            amount_in as int,
            larger_amount_in as int,
            fee_percentage as int,
        );
        let new_sol = virtual_sol + amount_in - fee_value(
            amount_in as int,
            fee_percentage as int,
        );
        let new_sol2 = virtual_sol + larger_amount_in - fee_value(
            larger_amount_in as int,
            fee_percentage as int,
        );
        lemma_fee_at_most_amount(amount_in as int, fee_percentage as int);
        lemma_ratio_at_most_one(virtual_sol as int, new_sol);
        lemma_div_is_ordered_by_denominator(virtual_sol * p, new_sol, new_sol2);
        lemma_tokens_for_ordered(
            virtual_sol as int,
            new_sol2,
            virtual_sol as int,
            new_sol,
            virtual_token as int,
        );
    } else {
        let new_token = virtual_token + amount_in;
        let new_token2 = virtual_token + larger_amount_in;
        let ratio = div_value(virtual_token as int, new_token);
        let ratio2 = div_value(virtual_token as int, new_token2);
        lemma_ratio_at_most_one(virtual_token as int, new_token);
        lemma_div_is_ordered_by_denominator(virtual_token * p, new_token, new_token2);
        lemma_pow_core_monotone(ratio2, ratio, inverse_crr_value());
        lemma_mul_value_monotone(
            virtual_sol as int,
            virtual_sol as int,
            PRECISION_U64 - pow_value(ratio, inverse_crr_value()),
            PRECISION_U64 - pow_value(ratio2, inverse_crr_value()),
        );
        lemma_sell_payout_bounds(virtual_sol, virtual_token, amount_in);
        lemma_sell_payout_bounds(virtual_sol, virtual_token, larger_amount_in);
        let payout = sell_payout(virtual_sol, virtual_token, amount_in);
        let payout2 = sell_payout(virtual_sol, virtual_token, larger_amount_in);
        if payout2 < payout {
            // the smaller sale's payout would do for the larger sale, and is more
            lemma_larger_sale_keeps_curve(
                virtual_sol,
                virtual_token,
                amount_in,
                larger_amount_in,
                payout,
            );
            lemma_smaller_payout_keeps_curve(
                virtual_sol,
                virtual_token,
                larger_amount_in,
                payout2 + 1,
                payout,
            );
        }
    }
}

/// Selling back what was just bought never pays more than was paid. Where
/// a buy is quoted and the sale of its tokens is quoted on the reserves the
/// buy leaves, the sale is quoted no more than joined the reserve, so the
/// reserve ends no lower than it began, and the seller is paid less than
/// the buyer paid.
pub proof fn lemma_round_trip_of_quotes(
    virtual_sol: u64,
    virtual_token: u64,
    amount_in: u64,
    buy_fee_percentage: u64,
    sell_fee_percentage: u64,
)
    requires
        buy_quote(virtual_sol, virtual_token, amount_in, buy_fee_percentage) is Ok,
        ({
            let (tokens, fee) = buy_quote(
                virtual_sol,
                virtual_token,
                amount_in,
                buy_fee_percentage,
            )->Ok_0;
            sell_quote(
                (virtual_sol + amount_in - fee) as u64,
                (virtual_token - tokens) as u64,
                tokens,
                sell_fee_percentage,
            ) is Ok
        }),
    ensures
        ({
            let (tokens, fee) = buy_quote(
                virtual_sol,
                virtual_token,
                amount_in,
                buy_fee_percentage,
            )->Ok_0;
            let (payout, sell_fee) = sell_quote(
                (virtual_sol + amount_in - fee) as u64,
                (virtual_token - tokens) as u64,
                tokens,
                sell_fee_percentage,
            )->Ok_0;
            &&& payout <= amount_in - fee
            &&& payout > 0 ==> payout < amount_in - fee
            &&& payout - sell_fee < amount_in
            &&& 0 <= sell_fee
        }),
{
    let p = PRECISION_U64 as int;
    lemma_buy_quote_bounds(virtual_sol, virtual_token, amount_in, buy_fee_percentage);
    let (tokens, fee) = buy_quote(
        virtual_sol,
        virtual_token,
        amount_in,
        buy_fee_percentage,
    )->Ok_0;
    let raised = (virtual_sol + amount_in - fee) as u64;
    let left = (virtual_token - tokens) as u64;
    lemma_sell_quote_bounds(raised, left, tokens, sell_fee_percentage);
    let payout = sell_quote(raised, left, tokens, sell_fee_percentage)->Ok_0.0;
    lemma_sell_payout_bounds(raised, left, tokens);
    lemma_ratio_at_most_one(virtual_sol as int, raised as int);
    if payout > 0 && raised - payout <= virtual_sol {
        lemma_ratio_at_most_one(raised - payout, raised as int);
        lemma_div_is_ordered((raised - payout) * p, virtual_sol * p, raised as int);
        lemma_tokens_for_ordered(
            raised - payout,
            raised as int,
            virtual_sol as int,
            raised as int,
            virtual_token as int,
        );
    }
}

/// A settled buy moves the reserves as the quote says and never the wrong
/// way: the base-currency reserve grows by what was paid in less the fee,
/// the token reserve shrinks by what was handed out, which is no more than
/// it held, and both stay positive. Nothing else of the curve changes but
/// the completion mark.
pub proof fn lemma_buy_conserves(
    curve: BondingCurve,
    config: Config,
    user_balance: u64,
    curve_token_balance: u64,
    amount_in: u64,
    min_amount_out: u64,
)
    requires
        curve.buy_outcome(config, user_balance, curve_token_balance, amount_in, min_amount_out)
            is Ok,
    ensures
        ({
            let (after, receipt) = curve.buy_outcome(
                config,
                user_balance,
                curve_token_balance,
                amount_in,
                min_amount_out,
            )->Ok_0;
            &&& receipt.fee_amount == fee_value(amount_in as int, config.buy_fee_percentage as int)
            &&& receipt.fee_amount <= amount_in
            &&& receipt.amount_out < curve.virtual_token_reserve
            &&& receipt.amount_out >= min_amount_out
            &&& after.virtual_sol_reserve == curve.virtual_sol_reserve + amount_in
                - receipt.fee_amount
            &&& after.virtual_token_reserve == curve.virtual_token_reserve - receipt.amount_out
            &&& after.virtual_sol_reserve >= curve.virtual_sol_reserve > 0
            &&& after.virtual_sol_reserve >= config.initial_virtual_sol_reserve
            &&& after.virtual_token_reserve > 0
            &&& after.well_formed()
            &&& after.real_sol_reserve == curve.real_sol_reserve
            &&& after.real_token_reserve == curve.real_token_reserve
            &&& after.token_total_supply == curve.token_total_supply
            &&& receipt.new_sol_reserves == after.virtual_sol_reserve
            &&& receipt.new_token_reserves == after.virtual_token_reserve
            &&& amount_in <= user_balance
            &&& receipt.amount_out <= curve_token_balance
        }),
{
    lemma_buy_quote_bounds(
        curve.virtual_sol_reserve,
        curve.virtual_token_reserve,
        amount_in,
        config.buy_fee_percentage,
    );
}

/// A settled sell moves the reserves as the quote says and never the wrong
/// way: the token reserve grows by what was paid in, the base-currency
/// reserve shrinks by what was quoted, which is no more than it held, and
/// stays positive and at or above the liquidity floor. The seller is paid
/// the quote less the fee, which is at least the minimum asked for.
pub proof fn lemma_sell_conserves(
    curve: BondingCurve,
    config: Config,
    user_token_balance: u64,
    curve_sol_balance: u64,
    amount_in: u64,
    min_amount_out: u64,
)
    requires
        curve.sell_outcome(config, user_token_balance, curve_sol_balance, amount_in, min_amount_out)
            is Ok,
    ensures
        ({
            let (after, receipt) = curve.sell_outcome(
                config,
                user_token_balance,
                curve_sol_balance,
                amount_in,
                min_amount_out,
            )->Ok_0;
            &&& receipt.fee_amount == fee_value(
                receipt.amount_out as int,
                config.sell_fee_percentage as int,
            )
            &&& receipt.fee_amount <= receipt.amount_out
            &&& receipt.amount_out - receipt.fee_amount >= min_amount_out
            &&& receipt.amount_out < curve.virtual_sol_reserve
            &&& after.virtual_sol_reserve == curve.virtual_sol_reserve - receipt.amount_out
            &&& after.virtual_token_reserve == curve.virtual_token_reserve + amount_in
            &&& after.virtual_token_reserve >= curve.virtual_token_reserve > 0
            &&& after.virtual_sol_reserve > 0
            &&& after.virtual_sol_reserve >= config.initial_virtual_sol_reserve
            &&& after.well_formed()
            &&& after.is_completed == curve.is_completed
            &&& after.real_sol_reserve == curve.real_sol_reserve
            &&& after.real_token_reserve == curve.real_token_reserve
            &&& after.token_total_supply == curve.token_total_supply
            &&& amount_in <= user_token_balance
            &&& receipt.amount_out <= curve_sol_balance
        }),
{
    lemma_sell_quote_bounds(
        curve.virtual_sol_reserve,
        curve.virtual_token_reserve,
        amount_in,
        config.sell_fee_percentage,
    );
}

/// A buy followed at once by the sale of what it bought never pays out
/// more than was paid, on any curve and under any configuration: the sale
/// is quoted no more than the buy added to the reserve, the reserve ends no
/// lower than it began, and the seller is paid less than the buyer paid.
pub proof fn lemma_round_trip(
    curve: BondingCurve,
    config: Config,
    user_balance: u64,
    curve_token_balance: u64,
    amount_in: u64,
    min_tokens_out: u64,
    user_token_balance: u64,
    curve_sol_balance: u64,
    min_sol_out: u64,
)
    requires
        curve.buy_outcome(config, user_balance, curve_token_balance, amount_in, min_tokens_out)
            is Ok,
        ({
            let (bought, buy_receipt) = curve.buy_outcome(
                config,
                user_balance,
                curve_token_balance,
                amount_in,
                min_tokens_out,
            )->Ok_0;
            bought.sell_outcome(
                config,
                user_token_balance,
                curve_sol_balance,
                buy_receipt.amount_out,
                min_sol_out,
            ) is Ok
        }),
    ensures
        ({
            let (bought, buy_receipt) = curve.buy_outcome(
                config,
                user_balance,
                curve_token_balance,
                amount_in,
                min_tokens_out,
            )->Ok_0;
            let (sold, sell_receipt) = bought.sell_outcome(
                config,
                user_token_balance,
                curve_sol_balance,
                buy_receipt.amount_out,
                min_sol_out,
            )->Ok_0;
            &&& sell_receipt.amount_out <= buy_receipt.net_amount
            &&& sold.virtual_sol_reserve >= curve.virtual_sol_reserve
            &&& sold.virtual_token_reserve == curve.virtual_token_reserve
            &&& sell_receipt.net_amount < amount_in
        }),
{
    lemma_buy_conserves(curve, config, user_balance, curve_token_balance, amount_in, min_tokens_out);
    let (bought, buy_receipt) = curve.buy_outcome(
        config,
        user_balance,
        curve_token_balance,
        amount_in,
        min_tokens_out,
    )->Ok_0;
    lemma_sell_conserves(
        bought,
        config,
        user_token_balance,
        curve_sol_balance,
        buy_receipt.amount_out,
        min_sol_out,
    );
    lemma_round_trip_of_quotes(
        curve.virtual_sol_reserve,
        curve.virtual_token_reserve,
        amount_in,
        config.buy_fee_percentage,
        config.sell_fee_percentage,
    );
}

/// Completion is final. A complete curve refuses every buy and every sell;
/// a buy leaves the curve complete exactly when it has brought the
/// base-currency reserve to the limit; a sell never touches the mark; and
/// so a curve whose mark is up to date keeps it up to date.
pub proof fn lemma_completion_is_final(
    curve: BondingCurve,
    config: Config,
    trader_balance: u64,
    custody_balance: u64,
    amount_in: u64,
    min_amount_out: u64,
)
    ensures
        curve.is_completed ==> {
            &&& curve.buy_outcome(
                config,
                trader_balance,
                custody_balance,
                amount_in,
                min_amount_out,
            ) is Err
            &&& curve.sell_outcome(
                config,
                trader_balance,
                custody_balance,
                amount_in,
                min_amount_out,
            ) is Err
        },
        curve.buy_outcome(config, trader_balance, custody_balance, amount_in, min_amount_out)
            matches Ok((after, receipt)) ==> {
            &&& after.is_completed == (after.virtual_sol_reserve >= config.curve_limit)
            &&& receipt.is_completed == after.is_completed
            &&& after.limit_respected(config)
        },
        curve.sell_outcome(config, trader_balance, custody_balance, amount_in, min_amount_out)
            matches Ok((after, receipt)) ==> {
            &&& after.is_completed == curve.is_completed
            &&& curve.limit_respected(config) ==> after.limit_respected(config)
        },
{
    if curve.sell_outcome(config, trader_balance, custody_balance, amount_in, min_amount_out)
        is Ok {
        lemma_sell_conserves(
            curve,
            config,
            trader_balance,
            custody_balance,
            amount_in,
            min_amount_out,
        );
    }
}

/// One request to trade, with the balances it is settled against.
pub struct TradeRequest {
    pub direction: u8,
    pub amount: u64,
    pub min_out: u64,
    /// What the trader holds of what is paid in.
    pub trader_balance: u64,
    /// What the custody holds of what is paid out.
    pub custody_balance: u64,
}

impl BondingCurve {
    /// The curve after one request: as the buy or the sell leaves it, and
    /// unchanged where the request is refused.
    pub open spec fn after_request(self, config: Config, request: TradeRequest) -> BondingCurve {
        let outcome = if request.direction == DIRECTION_BUY {
            self.buy_outcome(
                config,
                request.trader_balance,
                request.custody_balance,
                request.amount,
                request.min_out,
            )
        } else {
            self.sell_outcome(
                config,
                request.trader_balance,
                request.custody_balance,
                request.amount,
                request.min_out,
            )
        };
        match outcome {
            Ok((after, _)) => after,
            Err(_) => self,
        }
    }

    /// The curve after a run of requests, settled one after the other.
    pub open spec fn after_requests(self, config: Config, requests: Seq<TradeRequest>) -> BondingCurve
        decreases requests.len(),
    {
        if requests.len() == 0 {
            self
        } else {
            self.after_requests(config, requests.drop_last()).after_request(config, requests.last())
        }
    }
}

/// Whatever is asked of a curve, in whatever order, trading keeps it sound:
/// both reserves stay positive, a migrated curve stays complete, the
/// completion mark stays up to date and is never taken back, and what the
/// custody was given at launch and the supply are never touched. A complete
/// curve does not change at all.
pub proof fn lemma_trading_keeps_the_curve_sound(
    curve: BondingCurve,
    config: Config,
    requests: Seq<TradeRequest>,
)
    requires
        curve.well_formed(),
        curve.limit_respected(config),
    ensures
        ({
            let after = curve.after_requests(config, requests);
            &&& after.well_formed()
            &&& after.limit_respected(config)
            &&& curve.is_completed ==> after == curve
            &&& after.is_migrated == curve.is_migrated
            &&& after.real_sol_reserve == curve.real_sol_reserve
            &&& after.real_token_reserve == curve.real_token_reserve
            &&& after.token_total_supply == curve.token_total_supply
            &&& after != curve ==> after.virtual_sol_reserve >= config.initial_virtual_sol_reserve
        }),
    decreases requests.len(),
{
    if requests.len() > 0 {
        lemma_trading_keeps_the_curve_sound(curve, config, requests.drop_last());
        let before = curve.after_requests(config, requests.drop_last());
        let request = requests.last();
        if request.direction != DIRECTION_BUY && before.sell_outcome(
            config,
            request.trader_balance,
            request.custody_balance,
            request.amount,
            request.min_out,
        ) is Ok {
            lemma_sell_conserves(
                before,
                config,
                request.trader_balance,
                request.custody_balance,
                request.amount,
                request.min_out,
            );
        }
    }
}

/// A curve is launched sound: trading, with positive reserves and its
/// completion mark up to date. Under a valid configuration a launch fails
/// only where the system is paused or the buffer does not fit in 64 bits.
pub proof fn lemma_launch_is_sound(config: Config, min_rent: u64)
    ensures
        launch_fault(config, min_rent) is None ==> {
            let curve = launched_curve(config, (min_rent * 2) as u64);
            &&& curve.well_formed()
            &&& curve.limit_respected(config)
            &&& !curve.is_completed
            &&& !curve.is_migrated
        },
        config.valid() ==> (launch_fault(config, min_rent) is Some <==> config.is_paused
            || min_rent * 2 > u64::MAX),
{
}

/// While the system is paused no trade settles: a buy, a sell and a swap
/// all fail with `ContractPaused`, whatever else they are given.
pub proof fn lemma_paused_refuses_trades(
    ctx: Swap,
    amount: u64,
    direction: u8,
    min_out: u64,
    trader_balance: u64,
    custody_balance: u64,
)
    requires
        ctx.global_config.is_paused,
    ensures
        ctx.outcome(amount, direction, min_out) matches Err(SwifeyError::ContractPaused),
        ctx.bonding_curve.buy_outcome(
            ctx.global_config,
            trader_balance,
            custody_balance,
            amount,
            min_out,
        ) matches Err(SwifeyError::ContractPaused),
        ctx.bonding_curve.sell_outcome(
            ctx.global_config,
            trader_balance,
            custody_balance,
            amount,
            min_out,
        ) matches Err(SwifeyError::ContractPaused),
{
}

/// What a swap refuses whatever else it is given, on a system that is not
/// paused: every trade on a complete curve, with `CurveLimitReached`; and
/// on a trading curve every buy below `MIN_BUY_AMOUNT` and every sell below
/// `MIN_SELL_AMOUNT`, with `DustAmount`.
pub proof fn lemma_swap_refusals(ctx: Swap, amount: u64, direction: u8, min_out: u64)
    requires
        !ctx.global_config.is_paused,
    ensures
        ctx.bonding_curve.is_completed ==> ctx.outcome(amount, direction, min_out) matches Err(
            SwifeyError::CurveLimitReached,
        ),
        !ctx.bonding_curve.is_completed && direction == DIRECTION_BUY && amount < MIN_BUY_AMOUNT
            ==> ctx.outcome(amount, direction, min_out) matches Err(SwifeyError::DustAmount),
        !ctx.bonding_curve.is_completed && direction == DIRECTION_SELL && amount
            < MIN_SELL_AMOUNT ==> ctx.outcome(amount, direction, min_out) matches Err(
            SwifeyError::DustAmount,
        ),
{
}

/// A buy of less than `MIN_BUY_AMOUNT` is dust whatever the reserves are:
/// the quote fails with `DustAmount`, and so does the buy on any curve that
/// is open for trading.
pub proof fn lemma_dust_buy_is_refused(
    curve: BondingCurve,
    config: Config,
    user_balance: u64,
    curve_token_balance: u64,
    amount_in: u64,
    min_amount_out: u64,
)
    requires
        amount_in < MIN_BUY_AMOUNT,
    ensures
        buy_quote(
            curve.virtual_sol_reserve,
            curve.virtual_token_reserve,
            amount_in,
            config.buy_fee_percentage,
        ) == Err::<(u64, u64), SwifeyError>(SwifeyError::DustAmount),
        !config.is_paused && !curve.is_completed && !curve.is_migrated ==> curve.buy_outcome(
            config,
            user_balance,
            curve_token_balance,
            amount_in,
            min_amount_out,
        ) matches Err(SwifeyError::DustAmount),
{
}

/// The balances after three transfers made in order.
proof fn lemma_three_transfers(balances: Balances, plan: Seq<Transfer>)
    requires
        plan.len() == 3,
    ensures
        balances.after_all(plan) == match balances.after(plan[0]) {
            None => None,
            Some(first) => match first.after(plan[1]) {
                None => None,
                Some(second) => second.after(plan[2]),
            },
        },
{
    reveal_with_fuel(Balances::after_all, 4);
}

/// The balances on which a buy was settled cover its transfers: made in
/// order, none is refused; the buyer pays exactly `amount_in` and gets the
/// tokens, the fee recipient gets the fee, and the custody gets exactly what
/// the virtual base-currency reserve grew by and gives exactly what the
/// virtual token reserve shrank by.
pub proof fn lemma_buy_transfers_are_covered(
    curve: BondingCurve,
    config: Config,
    user_balance: u64,
    curve_token_balance: u64,
    amount_in: u64,
    min_amount_out: u64,
    balances: Balances,
)
    requires
        curve.buy_outcome(config, user_balance, curve_token_balance, amount_in, min_amount_out)
            is Ok,
        balances.none_negative(),
        balances.trader_sol == user_balance,
        balances.custody_token == curve_token_balance,
    ensures
        ({
            let (after, trade) = curve.buy_outcome(
                config,
                user_balance,
                curve_token_balance,
                amount_in,
                min_amount_out,
            )->Ok_0;
            let moved = balances.after_all(buy_plan(trade));
            &&& trade.fee_amount + trade.net_amount == amount_in
            &&& moved is Some
            &&& moved->Some_0 == (Balances {
                trader_sol: balances.trader_sol - amount_in,
                trader_token: balances.trader_token + trade.amount_out,
                custody_sol: balances.custody_sol + trade.net_amount,
                custody_token: balances.custody_token - trade.amount_out,
                fee_recipient_sol: balances.fee_recipient_sol + trade.fee_amount,
                ..balances
            })
            &&& trade.net_amount == after.virtual_sol_reserve - curve.virtual_sol_reserve
            &&& trade.amount_out == curve.virtual_token_reserve - after.virtual_token_reserve
        }),
{
    lemma_buy_conserves(curve, config, user_balance, curve_token_balance, amount_in, min_amount_out);
    let trade = curve.buy_outcome(
        config,
        user_balance,
        curve_token_balance,
        amount_in,
        min_amount_out,
    )->Ok_0.1;
    lemma_three_transfers(balances, buy_plan(trade));
}

/// The balances on which a sell was settled cover its transfers: made in
/// order, none is refused; the seller gives the tokens and is paid the
/// quote less the fee, the fee recipient gets the fee, and the custody gives
/// exactly what the virtual base-currency reserve shrank by.
pub proof fn lemma_sell_transfers_are_covered(
    curve: BondingCurve,
    config: Config,
    user_token_balance: u64,
    curve_sol_balance: u64,
    amount_in: u64,
    min_amount_out: u64,
    balances: Balances,
)
    requires
        curve.sell_outcome(config, user_token_balance, curve_sol_balance, amount_in, min_amount_out)
            is Ok,
        balances.none_negative(),
        balances.trader_token == user_token_balance,
        balances.custody_sol == curve_sol_balance,
    ensures
        ({
            let (after, trade) = curve.sell_outcome(
                config,
                user_token_balance,
                curve_sol_balance,
                amount_in,
                min_amount_out,
            )->Ok_0;
            let moved = balances.after_all(sell_plan(trade));
            &&& trade.fee_amount + trade.net_amount == trade.amount_out
            &&& moved is Some
            &&& moved->Some_0 == (Balances {
                trader_sol: balances.trader_sol + trade.net_amount,
                trader_token: balances.trader_token - amount_in,
                custody_sol: balances.custody_sol - trade.amount_out,
                custody_token: balances.custody_token + amount_in,
                fee_recipient_sol: balances.fee_recipient_sol + trade.fee_amount,
                ..balances
            })
            &&& trade.amount_out == curve.virtual_sol_reserve - after.virtual_sol_reserve
            &&& amount_in == after.virtual_token_reserve - curve.virtual_token_reserve
        }),
{
    lemma_sell_conserves(
        curve,
        config,
        user_token_balance,
        curve_sol_balance,
        amount_in,
        min_amount_out,
    );
    let trade = curve.sell_outcome(
        config,
        user_token_balance,
        curve_sol_balance,
        amount_in,
        min_amount_out,
    )->Ok_0.1;
    lemma_three_transfers(balances, sell_plan(trade));
}

/// The custody of a curve whose migration is not refused covers the
/// transfers, and they empty it: the fee goes to the fee recipient, all the
/// rest to the pool.
pub proof fn lemma_migration_transfers_are_covered(
    ctx: Migrate,
    params: MigrateParams,
    balances: Balances,
)
    requires
        ctx.fault(params) is None,
        balances.none_negative(),
        balances.custody_sol == ctx.curve_sol_balance,
        balances.custody_token == ctx.curve_token_balance,
    ensures
        ({
            let migration = ctx.announcement();
            let moved = balances.after_all(migration_plan(migration));
            &&& migration.migration_fee + migration.sol_amount == ctx.curve_sol_balance
            &&& migration.sol_amount >= params.minimum_sol_amount
            &&& migration.token_amount >= params.minimum_token_amount
            &&& moved is Some
            &&& moved->Some_0 == (Balances {
                custody_sol: 0,
                custody_token: 0,
                fee_recipient_sol: balances.fee_recipient_sol + migration.migration_fee,
                pool_sol: balances.pool_sol + migration.sol_amount,
                pool_token: balances.pool_token + ctx.curve_token_balance,
                ..balances
            })
        }),
{
    lemma_three_transfers(balances, migration_plan(ctx.announcement()));
}

/// Migration happens at most once. The authority's call on a curve that is
/// not complete fails with `CurveNotCompleted`; and after a migration that
/// was not refused, every further call by the authority on that curve
/// fails with `AlreadyMigrated`, whatever else it is given.
pub proof fn lemma_migration_happens_once(
    first: Migrate,
    params: MigrateParams,
    second: Migrate,
    again: MigrateParams,
)
    requires
        second.authority == second.config.authority,
    ensures
        !second.bonding_curve.is_completed ==> second.fault(again) == Some(
            SwifeyError::CurveNotCompleted,
        ),
        first.fault(params) is None && second.bonding_curve == (BondingCurve {
            is_migrated: true,
            ..first.bonding_curve
        }) ==> second.fault(again) == Some(SwifeyError::AlreadyMigrated),
        first.fault(params) is None ==> first.bonding_curve.is_completed
            && !first.bonding_curve.is_migrated,
{
}

} // verus!
