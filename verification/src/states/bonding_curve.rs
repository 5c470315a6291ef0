//! One curve per launched token: its reserves, its prices and its lifecycle.
//!
//! A curve trades until its virtual base-currency reserve reaches the
//! configured limit; it is then complete, and may be migrated once. A buy
//! pays its fee out of the amount paid in, a sell out of the amount paid out.
//!
//! The arithmetic is rounded on the curve's side. A sell is paid what the
//! curve gives less a margin, and never so much that buying the reserve back
//! up would return as many tokens as were sold: so selling back what was
//! just bought never pays more than was paid.

use vstd::prelude::*;
use vstd::arithmetic::div_mod::{lemma_div_by_multiple, lemma_div_is_ordered};
use vstd::string::{StrSliceExecFns, StringSliceAdditionalSpecFns};
use crate::address::Address;
use crate::constants::{
    BPS_DENOMINATOR, CRR_DENOMINATOR, CRR_NUMERATOR, MIN_BUY_AMOUNT, MIN_SELL_AMOUNT, PRECISION,
    PRECISION_U64,
};
use crate::errors::SwifeyError;
use crate::states::config::Config;
use crate::utils::fixed_math::{
    calculate_fee_amount, div_value, fee_value, fixed_div, fixed_div_u128, fixed_mul, fixed_pow,
    mul_value, pow_value, wide_div_value,
};
use crate::utils::fixed_math_lemmas::{
    lemma_mul_value_bounds, lemma_mul_value_monotone, lemma_pow_core_bounds,
    lemma_pow_core_monotone,
};

verus! {

/// The least virtual base-currency reserve a curve is usually given: one unit.
pub const MIN_SOL_LIQUIDITY: u64 = 1_000_000_000;

/// Direction of a trade that pays base currency for tokens.
pub const DIRECTION_BUY: u8 = 0;

/// Direction of a trade that pays tokens for base currency.
pub const DIRECTION_SELL: u8 = 1;

/// The record of one curve.
#[derive(Clone, Copy, Debug, PartialEq, Eq)]
pub struct BondingCurve {
    /// The two quantities that set the price.
    pub virtual_token_reserve: u64,
    pub virtual_sol_reserve: u64,
    /// What the custody accounts were given when the curve was launched.
    pub real_token_reserve: u64,
    pub real_sol_reserve: u64,
    pub token_total_supply: u64,
    /// Set once the virtual base-currency reserve has reached the limit.
    pub is_completed: bool,
    /// Set once the liquidity has been handed to the pool.
    pub is_migrated: bool,
}

/// What a settled trade moved and what it left behind.
#[derive(Clone, Copy, Debug, PartialEq, Eq)]
pub struct TradeReceipt {
    /// What the trader paid: base currency for a buy, tokens for a sell.
    pub amount_in: u64,
    /// What the curve quoted: tokens for a buy, base currency before the fee for a sell.
    pub amount_out: u64,
    /// The fee in base currency: part of `amount_in` for a buy, of `amount_out` for a sell.
    pub fee_amount: u64,
    /// The base currency that is left after the fee: what joins the reserve
    /// for a buy, what the seller is paid for a sell.
    pub net_amount: u64,
    pub new_sol_reserves: u64,
    pub new_token_reserves: u64,
    /// Whether the curve is complete after this trade.
    pub is_completed: bool,
}

/// The reserve ratio in fixed point: 0.651.
pub open spec fn crr_value() -> int {
    div_value(CRR_NUMERATOR as int, CRR_DENOMINATOR as int)
}

/// The inverse of the reserve ratio in fixed point.
pub open spec fn inverse_crr_value() -> int {
    div_value(CRR_DENOMINATOR as int, CRR_NUMERATOR as int)
}

/// What a sell is paid less than the curve alone gives, in parts of `10^9`
/// of the base-currency reserve: the margin that keeps the rounding of the
/// arithmetic on the curve's side.
pub const SELL_MARGIN: u64 = 1;

/// The tokens that are handed out of a token reserve of `token` for raising
/// the base-currency reserve from `low` to `high`: the share
/// `1 - (low / high)^CRR` of it, and all of it where the ratio rounds to zero.
pub open spec fn tokens_for(low: int, high: int, token: int) -> int {
    let ratio = div_value(low, high);
    if ratio == 0 {
        token
    } else {
        mul_value(token, PRECISION_U64 - pow_value(ratio, crr_value()))
    }
}

/// The quote for a buy of `amount_in` base currency: tokens out and fee.
///
/// The fee comes out of `amount_in`; the rest joins the reserve, and the
/// buyer gets the share `1 - (sol / new_sol)^CRR` of the token reserve.
pub open spec fn buy_quote(
    virtual_sol: u64,
    virtual_token: u64,
    amount_in: u64,
    fee_percentage: u64,
) -> Result<(u64, u64), SwifeyError> {
    let fee = fee_value(amount_in as int, fee_percentage as int);
    let new_sol = virtual_sol + amount_in - fee;
    if amount_in < MIN_BUY_AMOUNT {
        Err(SwifeyError::DustAmount)
    } else if virtual_sol == 0 || virtual_token == 0 {
        Err(SwifeyError::DivisionByZero)
    } else if fee > amount_in || new_sol > u64::MAX {
        Err(SwifeyError::MathOverflow)
    } else if div_value(virtual_sol as int, new_sol) == 0 {
        Err(SwifeyError::DivisionByZero)
    } else {
        Ok((tokens_for(virtual_sol as int, new_sol, virtual_token as int) as u64, fee as u64))
    }
}

/// What the curve alone gives for `amount_in` tokens: the share
/// `1 - (token / new_token)^(1/CRR)` of the base-currency reserve.
pub open spec fn sell_curve_value(virtual_sol: u64, virtual_token: u64, amount_in: u64) -> int {
    let ratio = div_value(virtual_token as int, virtual_token + amount_in);
    mul_value(virtual_sol as int, PRECISION_U64 - pow_value(ratio, inverse_crr_value()))
}

/// The most a sell of `amount_in` tokens can be quoted before the fee:
/// what the curve alone gives, less the margin, and never less than nothing.
pub open spec fn sell_target(virtual_sol: u64, virtual_token: u64, amount_in: u64) -> int {
    let raw = sell_curve_value(virtual_sol, virtual_token, amount_in);
    let margin = mul_value(virtual_sol as int, SELL_MARGIN as int) + 1;
    if raw > margin {
        raw - margin
    } else {
        0
    }
}

/// Whether a payout for `amount_in` tokens keeps the curve whole: buying
/// the reserve back up from where the payout leaves it would hand out fewer
/// tokens than were sold. A payout of nothing always does.
pub open spec fn payout_keeps_curve(
    virtual_sol: u64,
    virtual_token: u64,
    amount_in: u64,
    payout: int,
) -> bool {
    payout == 0 || tokens_for(
        virtual_sol - payout,
        virtual_sol as int,
        virtual_token + amount_in,
    ) < amount_in
}

/// Whether `payout` is what a sell of `amount_in` tokens is quoted before
/// the fee: the largest amount up to the target that keeps the curve whole.
pub open spec fn is_sell_payout(
    virtual_sol: u64,
    virtual_token: u64,
    amount_in: u64,
    payout: int,
) -> bool {
    &&& 0 <= payout <= sell_target(virtual_sol, virtual_token, amount_in)
    &&& payout_keeps_curve(virtual_sol, virtual_token, amount_in, payout)
    &&& payout == sell_target(virtual_sol, virtual_token, amount_in) || !payout_keeps_curve(
        virtual_sol,
        virtual_token,
        amount_in,
        payout + 1,
    )
}

/// What a sell of `amount_in` tokens is quoted before the fee. There is
/// exactly one such amount: see `lemma_sell_payout_is_unique`.
pub open spec fn sell_payout(virtual_sol: u64, virtual_token: u64, amount_in: u64) -> int {
    choose|payout: int| is_sell_payout(virtual_sol, virtual_token, amount_in, payout)
}

/// The quote for a sell of `amount_in` tokens: base currency out, before the
/// fee, and the fee on it.
///
/// The seller gets the share `1 - (token / new_token)^(1/CRR)` of the
/// base-currency reserve, less the margin, rounded down to what keeps the
/// curve whole, and less the fee.
pub open spec fn sell_quote(
    virtual_sol: u64,
    virtual_token: u64,
    amount_in: u64,
    fee_percentage: u64,
) -> Result<(u64, u64), SwifeyError> {
    let new_token = virtual_token + amount_in;
    let amount_out = sell_payout(virtual_sol, virtual_token, amount_in);
    let fee = fee_value(amount_out, fee_percentage as int);
    if virtual_sol == 0 || virtual_token == 0 {
        Err(SwifeyError::DivisionByZero)
    } else if new_token > u64::MAX {
        Err(SwifeyError::MathOverflow)
    } else if div_value(virtual_token as int, new_token) == 0 {
        Err(SwifeyError::DivisionByZero)
    } else if fee > u64::MAX {
        Err(SwifeyError::MathOverflow)
    } else {
        Ok((amount_out as u64, fee as u64))
    }
}

/// The quote for a trade in either direction. A buy below the dust floor
/// is refused first, then a zero reserve, then an unknown direction.
pub open spec fn quote(
    virtual_sol: u64,
    virtual_token: u64,
    amount_in: u64,
    direction: u8,
    fee_percentage: u64,
) -> Result<(u64, u64), SwifeyError> {
    if direction == DIRECTION_BUY {
        buy_quote(virtual_sol, virtual_token, amount_in, fee_percentage)
    } else if virtual_sol == 0 || virtual_token == 0 {
        Err(SwifeyError::DivisionByZero)
    } else if direction == DIRECTION_SELL {
        sell_quote(virtual_sol, virtual_token, amount_in, fee_percentage)
    } else {
        Err(SwifeyError::InvalidDirection)
    }
}

/// How far a trade moves the price of a token, in basis points of the price
/// before it. A price is base currency per token at the wide scale.
pub open spec fn price_impact_value(old_sol: u64, old_token: u64, new_sol: u64, new_token: u64) -> int {
    let current = wide_div_value(old_sol as int, old_token as int);
    let execution = wide_div_value(new_sol as int, new_token as int);
    let change = if execution >= current {
        execution - current
    } else {
        current - execution
    };
    change * BPS_DENOMINATOR / current
}

/// The price impact, or the failure to compute it: there is none when a
/// token reserve is zero or the price before the trade rounds to zero.
pub open spec fn price_impact_outcome(
    old_sol: u64,
    old_token: u64,
    new_sol: u64,
    new_token: u64,
) -> Result<u128, SwifeyError> {
    if old_token == 0 || new_token == 0 || wide_div_value(old_sol as int, old_token as int) == 0 {
        Err(SwifeyError::DivisionByZero)
    } else {
        Ok(price_impact_value(old_sol, old_token, new_sol, new_token) as u128)
    }
}

/// Computes the price impact of moving the reserves from the old pair to
/// the new.
///
/// Fails with `DivisionByZero` when a token reserve is zero or the price
/// before the trade rounds to zero, and on no other input.
pub fn price_impact(old_sol: u64, old_token: u64, new_sol: u64, new_token: u64) -> (r: Result<
    u128,
    SwifeyError,
>)
    ensures
        r == price_impact_outcome(old_sol, old_token, new_sol, new_token),
        r is Ok ==> 0 <= price_impact_value(old_sol, old_token, new_sol, new_token) <= u128::MAX,
{
    let current = fixed_div_u128(old_sol, old_token)?;
    let execution = fixed_div_u128(new_sol, new_token)?;
    if current == 0 {
        return Err(SwifeyError::DivisionByZero);
    }
    let change: u128 = if execution >= current {
        execution - current
    } else {
        current - execution
    };
    proof {
        let bound: int = 0xFFFF_FFFF_FFFF_FFFF * PRECISION;
        assert(old_sol * PRECISION <= bound) by (nonlinear_arith)
            requires
                old_sol <= 0xFFFF_FFFF_FFFF_FFFF,
                bound == 0xFFFF_FFFF_FFFF_FFFF * PRECISION,
        ;
        assert(new_sol * PRECISION <= bound) by (nonlinear_arith)
            requires
                new_sol <= 0xFFFF_FFFF_FFFF_FFFF,
                bound == 0xFFFF_FFFF_FFFF_FFFF * PRECISION,
        ;
        assert(0 <= change * BPS_DENOMINATOR <= bound * BPS_DENOMINATOR) by (nonlinear_arith)
            requires
                0 <= change <= bound,
                BPS_DENOMINATOR == 10_000,
        ;
    }
    Ok(change * (BPS_DENOMINATOR as u128) / current)
}

impl BondingCurve {
    /// The name under which a curve's record is kept, before the token's identity.
    pub const SEED_PREFIX: &'static str = "bonding_curve";

    /// The size of the stored record, in bytes.
    pub const LEN: usize = 8 * 5 + 1 + 1 + 8;

    /// What every operation keeps: both virtual reserves are positive, and
    /// a migrated curve is a completed one.
    pub open spec fn well_formed(self) -> bool {
        &&& self.virtual_sol_reserve > 0
        &&& self.virtual_token_reserve > 0
        &&& self.is_migrated ==> self.is_completed
    }

    /// This curve with other virtual reserves.
    pub open spec fn with_reserves(self, sol: u64, token: u64) -> BondingCurve {
        BondingCurve { virtual_sol_reserve: sol, virtual_token_reserve: token, ..self }
    }

    /// What a buy does to this curve under `config`: the curve after it and
    /// the receipt, or the failure that leaves the curve as it is.
    ///
    /// The checks come in this order: pause, completion, migration; the
    /// quote with its dust floor; the caller's minimum; the price impact;
    /// the trader's and the custody's balances; the liquidity floor.
    pub open spec fn buy_outcome(
        self,
        config: Config,
        user_balance: u64,
        curve_token_balance: u64,
        amount_in: u64,
        min_amount_out: u64,
    ) -> Result<(BondingCurve, TradeReceipt), SwifeyError> {
        if config.is_paused {
            Err(SwifeyError::ContractPaused)
        } else if self.is_completed {
            Err(SwifeyError::CurveLimitReached)
        } else if self.is_migrated {
            Err(SwifeyError::AlreadyMigrated)
        } else {
            match buy_quote(
                self.virtual_sol_reserve,
                self.virtual_token_reserve,
                amount_in,
                config.buy_fee_percentage,
            ) {
                Err(e) => Err(e),
                Ok((amount_out, fee_amount)) => {
                    let new_sol = (self.virtual_sol_reserve + amount_in - fee_amount) as u64;
                    let new_token = (self.virtual_token_reserve - amount_out) as u64;
                    if amount_out < min_amount_out {
                        Err(SwifeyError::InsufficientAmountOut)
                    } else {
                        match price_impact_outcome(
                            self.virtual_sol_reserve,
                            self.virtual_token_reserve,
                            new_sol,
                            new_token,
                        ) {
                            Err(e) => Err(e),
                            Ok(impact) => if impact > config.max_price_impact {
                                Err(SwifeyError::ExcessivePriceImpact)
                            } else if user_balance < amount_in {
                                Err(SwifeyError::InsufficientUserBalance)
                            } else if curve_token_balance < amount_out {
                                Err(SwifeyError::InsufficientTokenBalance)
                            } else if new_sol < config.initial_virtual_sol_reserve {
                                Err(SwifeyError::InsufficientLiquidity)
                            } else {
                                Ok(
                                    (
                                        BondingCurve {
                                            virtual_sol_reserve: new_sol,
                                            virtual_token_reserve: new_token,
                                            is_completed: new_sol >= config.curve_limit,
                                            ..self
                                        },
                                        TradeReceipt {
                                            amount_in,
                                            amount_out,
                                            fee_amount,
                                            net_amount: (amount_in - fee_amount) as u64,
                                            new_sol_reserves: new_sol,
                                            new_token_reserves: new_token,
                                            is_completed: new_sol >= config.curve_limit,
                                        },
                                    ),
                                )
                            },
                        }
                    }
                },
            }
        }
    }

    /// What a sell does to this curve under `config`: the curve after it and
    /// the receipt, or the failure that leaves the curve as it is.
    ///
    /// The checks come in this order: pause, completion, migration; the
    /// dust floor; the quote; the caller's minimum, held against what the
    /// seller is paid after the fee; the price impact; the seller's and the
    /// custody's balances; the liquidity floor.
    pub open spec fn sell_outcome(
        self,
        config: Config,
        user_token_balance: u64,
        curve_sol_balance: u64,
        amount_in: u64,
        min_amount_out: u64,
    ) -> Result<(BondingCurve, TradeReceipt), SwifeyError> {
        if config.is_paused {
            Err(SwifeyError::ContractPaused)
        } else if self.is_completed {
            Err(SwifeyError::CurveLimitReached)
        } else if self.is_migrated {
            Err(SwifeyError::AlreadyMigrated)
        } else if amount_in < MIN_SELL_AMOUNT {
            Err(SwifeyError::DustAmount)
        } else {
            match sell_quote(
                self.virtual_sol_reserve,
                self.virtual_token_reserve,
                amount_in,
                config.sell_fee_percentage,
            ) {
                Err(e) => Err(e),
                Ok((amount_out, fee_amount)) => {
                    let new_sol = (self.virtual_sol_reserve - amount_out) as u64;
                    let new_token = (self.virtual_token_reserve + amount_in) as u64;
                    if fee_amount > amount_out {
                        Err(SwifeyError::MathOverflow)
                    } else if amount_out - fee_amount < min_amount_out {
                        Err(SwifeyError::InsufficientAmountOut)
                    } else {
                        match price_impact_outcome(
                            self.virtual_sol_reserve,
                            self.virtual_token_reserve,
                            new_sol,
                            new_token,
                        ) {
                            Err(e) => Err(e),
                            Ok(impact) => if impact > config.max_price_impact {
                                Err(SwifeyError::ExcessivePriceImpact)
                            } else if user_token_balance < amount_in {
                                Err(SwifeyError::InsufficientUserBalance)
                            } else if curve_sol_balance < amount_out {
                                Err(SwifeyError::InsufficientSolBalance)
                            } else if new_sol < config.initial_virtual_sol_reserve || new_sol == 0 {
                                Err(SwifeyError::InsufficientLiquidity)
                            } else {
                                Ok(
                                    (
                                        self.with_reserves(new_sol, new_token),
                                        TradeReceipt {
                                            amount_in,
                                            amount_out,
                                            fee_amount,
                                            net_amount: (amount_out - fee_amount) as u64,
                                            new_sol_reserves: new_sol,
                                            new_token_reserves: new_token,
                                            is_completed: false,
                                        },
                                    ),
                                )
                            },
                        }
                    }
                },
            }
        }
    }

    /// The three seeds under which the record of the curve of `mint` is
    /// kept and signs: the prefix, the token's identity and the bump.
    pub fn get_signer(mint: &Address, bump: u8) -> (r: Vec<Vec<u8>>)
        ensures
            r@.len() == 3,
            r@[0]@ == BondingCurve::SEED_PREFIX.spec_bytes(),
            r@[1]@ == mint.bytes@,
            r@[2]@ == seq![bump],
    {
        let mut mint_seed: Vec<u8> = Vec::new();
        let mut i: usize = 0;
        while i < 32
            invariant
                i <= 32,
                mint_seed@ == mint.bytes@.subrange(0, i as int),
            decreases 32 - i,
        {
            mint_seed.push(mint.bytes[i]);
            i = i + 1;
        }
        let mut bump_seed: Vec<u8> = Vec::new();
        bump_seed.push(bump);
        let mut seeds: Vec<Vec<u8>> = Vec::new();
        seeds.push(Self::SEED_PREFIX.as_bytes_vec());
        seeds.push(mint_seed);
        seeds.push(bump_seed);
        seeds
    }

    /// Replaces both virtual reserves.
    ///
    /// Fails with `InsufficientLiquidity`, and changes nothing, when the new
    /// base-currency reserve is below `initial_sol_reserve` or either new
    /// reserve is zero.
    pub fn update_reserves(
        &mut self,
        reserve_lamport: u64,
        reserve_token: u64,
        initial_sol_reserve: u64,
    ) -> (r: Result<bool, SwifeyError>)
        ensures
            reserve_lamport < initial_sol_reserve || reserve_lamport == 0 || reserve_token == 0 ==> {
                &&& r == Err::<bool, SwifeyError>(SwifeyError::InsufficientLiquidity)
                &&& *final(self) == *old(self)
            },
            reserve_lamport >= initial_sol_reserve && reserve_lamport > 0 && reserve_token > 0 ==> {
                &&& r == Ok::<bool, SwifeyError>(true)
                &&& *final(self) == old(self).with_reserves(reserve_lamport, reserve_token)
            },
            old(self).well_formed() ==> final(self).well_formed(),
    {
        if reserve_lamport < initial_sol_reserve || reserve_lamport == 0 || reserve_token == 0 {
            return Err(SwifeyError::InsufficientLiquidity);
        }
        self.virtual_sol_reserve = reserve_lamport;
        self.virtual_token_reserve = reserve_token;
        Ok(true)
    }

    /// Refuses any further operation on a migrated curve.
    pub fn validate_state_transition(&self) -> (r: Result<(), SwifeyError>)
        ensures
            self.is_migrated ==> r == Err::<(), SwifeyError>(SwifeyError::AlreadyMigrated),
            !self.is_migrated ==> r is Ok,
    {
        if self.is_migrated {
            return Err(SwifeyError::AlreadyMigrated);
        }
        Ok(())
    }

    /// Marks the curve complete when `new_sol_reserves` has reached
    /// `curve_limit`, and says whether the curve is complete. A complete
    /// curve stays complete: on it this changes nothing and returns `true`.
    pub fn update_completion_state(&mut self, new_sol_reserves: u64, curve_limit: u64) -> (r:
        Result<bool, SwifeyError>)
        ensures
            r == Ok::<bool, SwifeyError>(old(self).is_completed || new_sol_reserves >= curve_limit),
            *final(self) == (BondingCurve {
                is_completed: old(self).is_completed || new_sol_reserves >= curve_limit,
                ..*old(self)
            }),
            old(self).well_formed() ==> final(self).well_formed(),
    {
        if new_sol_reserves >= curve_limit {
            self.is_completed = true;
        }
        Ok(self.is_completed)
    }

    /// Whether the curve may be migrated now: it is complete and has not
    /// been migrated before.
    pub fn check_migration_eligibility(&self) -> (r: Result<(), SwifeyError>)
        ensures
            !self.is_completed ==> r == Err::<(), SwifeyError>(SwifeyError::CurveNotCompleted),
            self.is_completed && self.is_migrated ==> r == Err::<(), SwifeyError>(
                SwifeyError::AlreadyMigrated,
            ),
            self.is_completed && !self.is_migrated ==> r is Ok,
    {
        if !self.is_completed {
            return Err(SwifeyError::CurveNotCompleted);
        }
        if self.is_migrated {
            return Err(SwifeyError::AlreadyMigrated);
        }
        Ok(())
    }

    /// Marks an eligible curve migrated; on any other curve it fails as
    /// `check_migration_eligibility` does and changes nothing.
    pub fn update_migration_state(&mut self) -> (r: Result<(), SwifeyError>)
        ensures
            !old(self).is_completed ==> r == Err::<(), SwifeyError>(
                SwifeyError::CurveNotCompleted,
            ) && *final(self) == *old(self),
            old(self).is_completed && old(self).is_migrated ==> r == Err::<(), SwifeyError>(
                SwifeyError::AlreadyMigrated,
            ) && *final(self) == *old(self),
            old(self).is_completed && !old(self).is_migrated ==> r is Ok && *final(self) == (
            BondingCurve { is_migrated: true, ..*old(self) }),
            old(self).well_formed() ==> final(self).well_formed(),
    {
        self.check_migration_eligibility()?;
        self.is_migrated = true;
        Ok(())
    }

    /// Quotes a trade against the current reserves and changes nothing:
    /// the amount out and the fee.
    pub fn calculate_amount_out_preview(&self, amount_in: u64, direction: u8, fee_percentage: u64) -> (r:
        Result<(u64, u64), SwifeyError>)
        ensures
            r == quote(
                self.virtual_sol_reserve,
                self.virtual_token_reserve,
                amount_in,
                direction,
                fee_percentage,
            ),
            direction == DIRECTION_BUY && amount_in < MIN_BUY_AMOUNT ==> r == Err::<
                (u64, u64),
                SwifeyError,
            >(SwifeyError::DustAmount),
            (direction != DIRECTION_BUY || amount_in >= MIN_BUY_AMOUNT) && (self.virtual_sol_reserve
                == 0 || self.virtual_token_reserve == 0) ==> r == Err::<(u64, u64), SwifeyError>(
                SwifeyError::DivisionByZero,
            ),
            r is Ok && direction == DIRECTION_BUY ==> {
                &&& r->Ok_0.0 <= self.virtual_token_reserve
                &&& r->Ok_0.1 == fee_value(amount_in as int, fee_percentage as int)
                &&& r->Ok_0.1 <= amount_in
                &&& self.virtual_sol_reserve + amount_in - r->Ok_0.1 <= u64::MAX
            },
            r is Ok && direction == DIRECTION_SELL ==> {
                &&& r->Ok_0.0 <= self.virtual_sol_reserve
                &&& r->Ok_0.1 == fee_value(r->Ok_0.0 as int, fee_percentage as int)
                &&& self.virtual_token_reserve + amount_in <= u64::MAX
            },
    {
        if direction == DIRECTION_BUY && amount_in < MIN_BUY_AMOUNT {
            return Err(SwifeyError::DustAmount);
        }
        if self.virtual_sol_reserve == 0 || self.virtual_token_reserve == 0 {
            return Err(SwifeyError::DivisionByZero);
        }
        if direction == DIRECTION_BUY {
            let fee_amount = calculate_fee_amount(amount_in, fee_percentage)?;
            let net_amount = match amount_in.checked_sub(fee_amount) {
                Some(v) => v,
                None => {
                    return Err(SwifeyError::MathOverflow);
                },
            };
            let current_sol = self.virtual_sol_reserve;
            let new_sol = match current_sol.checked_add(net_amount) {
                Some(v) => v,
                None => {
                    return Err(SwifeyError::MathOverflow);
                },
            };
            proof {
                lemma_ratio_at_most_one(current_sol as int, new_sol as int);
            }
            if fixed_div(current_sol, new_sol)? == 0 {
                return Err(SwifeyError::DivisionByZero);
            }
            let tokens_out = tokens_for_raise(current_sol, new_sol, self.virtual_token_reserve)?;
            Ok((tokens_out, fee_amount))
        } else if direction == DIRECTION_SELL {
            let current_token = self.virtual_token_reserve;
            let new_token = match current_token.checked_add(amount_in) {
                Some(v) => v,
                None => {
                    return Err(SwifeyError::MathOverflow);
                },
            };
            proof {
                lemma_ratio_at_most_one(current_token as int, new_token as int);
            }
            let ratio = fixed_div(current_token, new_token)?;
            let inverse_crr = fixed_div(CRR_DENOMINATOR, CRR_NUMERATOR)?;
            let powered = fixed_pow(ratio, inverse_crr)?;
            let share: u64 = PRECISION_U64 - powered;
            proof {
                lemma_mul_value_bounds(self.virtual_sol_reserve as int, share as int);
                lemma_mul_value_bounds(self.virtual_sol_reserve as int, SELL_MARGIN as int);
            }
            let raw = fixed_mul(self.virtual_sol_reserve, share)?;
            let margin = fixed_mul(self.virtual_sol_reserve, SELL_MARGIN)? + 1;
            let target: u64 = if raw > margin {
                raw - margin
            } else {
                0
            };
            let mut sol_out: u64 = target;
            if !self.keeps_curve(amount_in, target)? {
                // the target is a little too much: find the most that is not
                let mut kept: u64 = 0;
                let mut refused: u64 = target;
                while refused - kept > 1
                    invariant
                        0 <= kept < refused <= target <= self.virtual_sol_reserve,
                        self.virtual_sol_reserve > 0,
                        self.virtual_token_reserve + amount_in <= u64::MAX,
                        payout_keeps_curve(
                            self.virtual_sol_reserve,
                            self.virtual_token_reserve,
                            amount_in,
                            kept as int,
                        ),
                        !payout_keeps_curve(
                            self.virtual_sol_reserve,
                            self.virtual_token_reserve,
                            amount_in,
                            refused as int,
                        ),
                    decreases refused - kept,
                {
                    let middle = kept + (refused - kept) / 2;
                    if self.keeps_curve(amount_in, middle)? {
                        kept = middle;
                    } else {
                        refused = middle;
                    }
                }
                sol_out = kept;
            }
            proof {
                lemma_sell_payout_is_unique(
                    self.virtual_sol_reserve,
                    self.virtual_token_reserve,
                    amount_in,
                    sol_out as int,
                );
            }
            let fee_amount = calculate_fee_amount(sol_out, fee_percentage)?;
            Ok((sol_out, fee_amount))
        } else {
            Err(SwifeyError::InvalidDirection)
        }
    }

    /// Says whether a payout for `amount_in` tokens keeps the curve whole.
    fn keeps_curve(&self, amount_in: u64, payout: u64) -> (r: Result<bool, SwifeyError>)
        requires
            payout <= self.virtual_sol_reserve,
            0 < self.virtual_sol_reserve,
            self.virtual_token_reserve + amount_in <= u64::MAX,
        ensures
            r == Ok::<bool, SwifeyError>(
                payout_keeps_curve(
                    self.virtual_sol_reserve,
                    self.virtual_token_reserve,
                    amount_in,
                    payout as int,
                ),
            ),
    {
        if payout == 0 {
            return Ok(true);
        }
        let back = tokens_for_raise(
            self.virtual_sol_reserve - payout,
            self.virtual_sol_reserve,
            self.virtual_token_reserve + amount_in,
        )?;
        Ok(back < amount_in)
    }

    /// Settles a buy of `amount_in` base currency: quotes it, checks it and
    /// commits the new reserves. The receipt says what to move, and
    /// `buy_transfers` in which order: the fee to the fee recipient, the rest
    /// of `amount_in` to the curve's custody, `amount_out` tokens to the buyer.
    ///
    /// `user_balance` is the buyer's base currency, `curve_token_balance`
    /// the tokens in custody. On failure the curve is unchanged.
    pub fn buy(
        &mut self,
        config: &Config,
        user_balance: u64,
        curve_token_balance: u64,
        amount_in: u64,
        min_amount_out: u64,
    ) -> (r: Result<TradeReceipt, SwifeyError>)
        ensures
            match old(self).buy_outcome(
                *config,
                user_balance,
                curve_token_balance,
                amount_in,
                min_amount_out,
            ) {
                Ok((curve, receipt)) => {
                    &&& r == Ok::<TradeReceipt, SwifeyError>(receipt)
                    &&& *final(self) == curve
                },
                Err(e) => r == Err::<TradeReceipt, SwifeyError>(e) && *final(self) == *old(self),
            },
    {
        if config.is_paused {
            return Err(SwifeyError::ContractPaused);
        }
        if self.is_completed {
            return Err(SwifeyError::CurveLimitReached);
        }
        self.validate_state_transition()?;
        let (amount_out, fee_amount) = self.calculate_amount_out_preview(
            amount_in,
            DIRECTION_BUY,
            config.buy_fee_percentage,
        )?;
        if amount_out < min_amount_out {
            return Err(SwifeyError::InsufficientAmountOut);
        }
        let net_amount: u64 = amount_in - fee_amount;
        let new_sol_reserves: u64 = self.virtual_sol_reserve + net_amount;
        let new_token_reserves: u64 = self.virtual_token_reserve - amount_out;
        let impact = price_impact(
            self.virtual_sol_reserve,
            self.virtual_token_reserve,
            new_sol_reserves,
            new_token_reserves,
        )?;
        if impact > config.max_price_impact as u128 {
            return Err(SwifeyError::ExcessivePriceImpact);
        }
        if user_balance < amount_in {
            return Err(SwifeyError::InsufficientUserBalance);
        }
        if curve_token_balance < amount_out {
            return Err(SwifeyError::InsufficientTokenBalance);
        }
        self.update_reserves(
            new_sol_reserves,
            new_token_reserves,
            config.initial_virtual_sol_reserve,
        )?;
        let is_completed = self.update_completion_state(new_sol_reserves, config.curve_limit)?;
        Ok(
            TradeReceipt {
                amount_in,
                amount_out,
                fee_amount,
                net_amount,
                new_sol_reserves,
                new_token_reserves,
                is_completed,
            },
        )
    }

    /// Settles a sell of `amount_in` tokens: quotes it, checks it and
    /// commits the new reserves. The receipt says what to move, and
    /// `sell_transfers` in which order: `amount_in` tokens to the curve's
    /// custody, `amount_out` less the fee to the seller, the fee to the fee
    /// recipient.
    ///
    /// `user_token_balance` is the seller's tokens, `curve_sol_balance` the
    /// base currency in custody. On failure the curve is unchanged.
    pub fn sell(
        &mut self,
        config: &Config,
        user_token_balance: u64,
        curve_sol_balance: u64,
        amount_in: u64,
        min_amount_out: u64,
    ) -> (r: Result<TradeReceipt, SwifeyError>)
        ensures
            match old(self).sell_outcome(
                *config,
                user_token_balance,
                curve_sol_balance,
                amount_in,
                min_amount_out,
            ) {
                Ok((curve, receipt)) => {
                    &&& r == Ok::<TradeReceipt, SwifeyError>(receipt)
                    &&& *final(self) == curve
                },
                Err(e) => r == Err::<TradeReceipt, SwifeyError>(e) && *final(self) == *old(self),
            },
    {
        if config.is_paused {
            return Err(SwifeyError::ContractPaused);
        }
        if self.is_completed {
            return Err(SwifeyError::CurveLimitReached);
        }
        self.validate_state_transition()?;
        if amount_in < MIN_SELL_AMOUNT {
            return Err(SwifeyError::DustAmount);
        }
        let (amount_out, fee_amount) = self.calculate_amount_out_preview(
            amount_in,
            DIRECTION_SELL,
            config.sell_fee_percentage,
        )?;
        let user_amount = match amount_out.checked_sub(fee_amount) {
            Some(v) => v,
            None => {
                return Err(SwifeyError::MathOverflow);
            },
        };
        if user_amount < min_amount_out {
            return Err(SwifeyError::InsufficientAmountOut);
        }
        let new_token_reserves: u64 = self.virtual_token_reserve + amount_in;
        let new_sol_reserves: u64 = self.virtual_sol_reserve - amount_out;
        let impact = price_impact(
            self.virtual_sol_reserve,
            self.virtual_token_reserve,
            new_sol_reserves,
            new_token_reserves,
        )?;
        if impact > config.max_price_impact as u128 {
            return Err(SwifeyError::ExcessivePriceImpact);
        }
        if user_token_balance < amount_in {
            return Err(SwifeyError::InsufficientUserBalance);
        }
        if curve_sol_balance < amount_out {
            return Err(SwifeyError::InsufficientSolBalance);
        }
        self.update_reserves(
            new_sol_reserves,
            new_token_reserves,
            config.initial_virtual_sol_reserve,
        )?;
        Ok(
            TradeReceipt {
                amount_in,
                amount_out,
                fee_amount,
                net_amount: user_amount,
                new_sol_reserves,
                new_token_reserves,
                is_completed: false,
            },
        )
    }
}

/// Computes `tokens_for`; it succeeds wherever `low` is at most `high`.
fn tokens_for_raise(low: u64, high: u64, token: u64) -> (r: Result<u64, SwifeyError>)
    requires
        low <= high,
        0 < high,
    ensures
        r == Ok::<u64, SwifeyError>(tokens_for(low as int, high as int, token as int) as u64),
        0 <= tokens_for(low as int, high as int, token as int) <= token,
{
    proof {
        lemma_ratio_at_most_one(low as int, high as int);
    }
    let ratio = fixed_div(low, high)?;
    if ratio == 0 {
        return Ok(token);
    }
    let crr = fixed_div(CRR_NUMERATOR, CRR_DENOMINATOR)?;
    let powered = fixed_pow(ratio, crr)?;
    let share: u64 = PRECISION_U64 - powered;
    proof {
        lemma_mul_value_bounds(token as int, share as int);
    }
    fixed_mul(token, share)
}

/// The tokens handed out for raising the reserve grow as the ratio of the
/// old reserve to the new falls, and are never more than the token reserve.
pub proof fn lemma_tokens_for_ordered(low: int, high: int, low2: int, high2: int, token: int)
    requires
        0 <= div_value(low, high) <= div_value(low2, high2) <= PRECISION_U64,
        0 <= token,
    ensures
        0 <= tokens_for(low2, high2, token) <= tokens_for(low, high, token) <= token,
{
    let ratio = div_value(low, high);
    let ratio2 = div_value(low2, high2);
    if ratio2 > 0 {
        lemma_pow_core_bounds(ratio2, crr_value());
        lemma_mul_value_bounds(token, PRECISION_U64 - pow_value(ratio2, crr_value()));
    }
    if ratio > 0 {
        lemma_pow_core_monotone(ratio, ratio2, crr_value());
        lemma_mul_value_bounds(token, PRECISION_U64 - pow_value(ratio, crr_value()));
        lemma_mul_value_monotone(
            token,
            token,
            PRECISION_U64 - pow_value(ratio2, crr_value()),
            PRECISION_U64 - pow_value(ratio, crr_value()),
        );
    }
}

/// A payout smaller than one that keeps the curve whole keeps it whole too.
pub proof fn lemma_smaller_payout_keeps_curve(
    virtual_sol: u64,
    virtual_token: u64,
    amount_in: u64,
    payout: int,
    larger: int,
)
    requires
        0 <= payout <= larger <= virtual_sol,
        0 < virtual_sol,
        payout_keeps_curve(virtual_sol, virtual_token, amount_in, larger),
    ensures
        payout_keeps_curve(virtual_sol, virtual_token, amount_in, payout),
{
    if payout > 0 {
        let p = PRECISION_U64 as int;
        lemma_ratio_at_most_one(virtual_sol - larger, virtual_sol as int);
        lemma_ratio_at_most_one(virtual_sol - payout, virtual_sol as int);
        lemma_div_is_ordered((virtual_sol - larger) * p, (virtual_sol - payout) * p, virtual_sol as int);
        lemma_tokens_for_ordered(
            virtual_sol - larger,
            virtual_sol as int,
            virtual_sol - payout,
            virtual_sol as int,
            virtual_token + amount_in,
        );
    }
}

/// What a sell is quoted is pinned down: an amount that is the largest up
/// to the target to keep the curve whole is the only such amount.
pub proof fn lemma_sell_payout_is_unique(
    virtual_sol: u64,
    virtual_token: u64,
    amount_in: u64,
    payout: int,
)
    requires
        0 < virtual_sol,
        sell_target(virtual_sol, virtual_token, amount_in) <= virtual_sol,
        is_sell_payout(virtual_sol, virtual_token, amount_in, payout),
    ensures
        sell_payout(virtual_sol, virtual_token, amount_in) == payout,
{
    let other = sell_payout(virtual_sol, virtual_token, amount_in);
    assert(is_sell_payout(virtual_sol, virtual_token, amount_in, other));
    if other < payout {
        lemma_smaller_payout_keeps_curve(virtual_sol, virtual_token, amount_in, other + 1, payout);
    } else if payout < other {
        lemma_smaller_payout_keeps_curve(virtual_sol, virtual_token, amount_in, payout + 1, other);
    }
}

/// There is an amount that a sell is quoted, so `sell_payout` is one.
pub proof fn lemma_sell_payout_exists(virtual_sol: u64, virtual_token: u64, amount_in: u64)
    requires
        0 <= sell_target(virtual_sol, virtual_token, amount_in),
    ensures
        is_sell_payout(
            virtual_sol,
            virtual_token,
            amount_in,
            sell_payout(virtual_sol, virtual_token, amount_in),
        ),
{
    lemma_sell_payout_below(
        virtual_sol,
        virtual_token,
        amount_in,
        sell_target(virtual_sol, virtual_token, amount_in),
    );
}

proof fn lemma_sell_payout_below(virtual_sol: u64, virtual_token: u64, amount_in: u64, top: int)
    requires
        0 <= top <= sell_target(virtual_sol, virtual_token, amount_in),
        top == sell_target(virtual_sol, virtual_token, amount_in) || !payout_keeps_curve(
            virtual_sol,
            virtual_token,
            amount_in,
            top + 1,
        ),
    ensures
        is_sell_payout(
            virtual_sol,
            virtual_token,
            amount_in,
            sell_payout(virtual_sol, virtual_token, amount_in),
        ),
    decreases top,
{
    if payout_keeps_curve(virtual_sol, virtual_token, amount_in, top) {
        assert(is_sell_payout(virtual_sol, virtual_token, amount_in, top));
    } else {
        lemma_sell_payout_below(virtual_sol, virtual_token, amount_in, top - 1);
    }
}

/// The quotient of a number by one that is at least as large is at most `1.0`.
pub proof fn lemma_ratio_at_most_one(a: int, b: int)
    requires
        0 <= a <= b,
        0 < b,
    ensures
        0 <= div_value(a, b) <= PRECISION_U64,
{
    let p = PRECISION_U64 as int;
    lemma_div_is_ordered(a * p, b * p, b);
    assert(b * p == p * b) by (nonlinear_arith);
    lemma_div_by_multiple(p, b);
}

} // verus!
