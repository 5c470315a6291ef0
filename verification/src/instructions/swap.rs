//! Trading against a curve: a buy or a sell, with what it announces.

use vstd::prelude::*;
use crate::address::Address;
use crate::constants::{MIN_BUY_AMOUNT, MIN_SELL_AMOUNT};
use crate::errors::SwifeyError;
use crate::states::bonding_curve::{BondingCurve, TradeReceipt, DIRECTION_BUY, DIRECTION_SELL};
use crate::states::config::Config;
use crate::utils::events::{CurveCompleted, TokenPurchased, TokenSold};

verus! {

/// Prices in announcements count tokens per unit of base currency in millionths.
pub const PRICE_SCALE: u64 = 1_000_000;

/// What `swap` works on.
#[derive(Clone, Copy, Debug, PartialEq, Eq)]
pub struct Swap {
    /// The trader, with the base currency and the tokens they hold.
    pub user: Address,
    pub user_balance: u64,
    pub user_token_balance: u64,
    pub global_config: Config,
    /// The account that is to be paid the fee.
    pub fee_recipient: Address,
    pub bonding_curve: BondingCurve,
    pub token_mint: Address,
    /// What the curve's custody holds.
    pub curve_sol_balance: u64,
    pub curve_token_balance: u64,
}

/// The announcement of the trade itself.
#[derive(Clone, Copy, Debug, PartialEq, Eq)]
pub enum TradeEvent {
    Purchased(TokenPurchased),
    Sold(TokenSold),
}

/// What a settled swap hands back.
#[derive(Clone, Copy, Debug, PartialEq, Eq)]
pub struct SwapReceipt {
    /// What to move.
    pub trade: TradeReceipt,
    /// Announced before the trade when this buy completed the curve.
    pub completed: Option<CurveCompleted>,
    pub event: TradeEvent,
}

/// The price to announce: tokens per unit of base currency, in millionths,
/// rounded down; the largest number that fits where that is too large, and
/// zero where there is no base currency.
pub open spec fn price_value(sol_reserves: u64, token_reserves: u64) -> int {
    if sol_reserves == 0 {
        0
    } else if token_reserves * PRICE_SCALE / (sol_reserves as int) > u64::MAX {
        u64::MAX as int
    } else {
        token_reserves * PRICE_SCALE / (sol_reserves as int)
    }
}

/// Computes the price to announce for the given reserves.
pub fn announced_price(sol_reserves: u64, token_reserves: u64) -> (r: u64)
    ensures
        r == price_value(sol_reserves, token_reserves),
{
    if sol_reserves == 0 {
        return 0;
    }
    assert(token_reserves * PRICE_SCALE <= u128::MAX) by (nonlinear_arith)
        requires
            token_reserves <= 0xFFFF_FFFF_FFFF_FFFF,
            PRICE_SCALE == 1_000_000,
    ;
    let scaled: u128 = (token_reserves as u128) * (PRICE_SCALE as u128);
    let price: u128 = scaled / (sol_reserves as u128);
    if price > u64::MAX as u128 {
        u64::MAX
    } else {
        price as u64
    }
}

impl Swap {
    /// The announcements of a settled trade.
    pub open spec fn receipt_of(self, direction: u8, trade: TradeReceipt) -> SwapReceipt {
        let price = price_value(trade.new_sol_reserves, trade.new_token_reserves) as u64;
        if direction == DIRECTION_BUY {
            SwapReceipt {
                trade,
                completed: if trade.is_completed {
                    Some(
                        CurveCompleted {
                            token_mint: self.token_mint,
                            final_sol_reserve: trade.new_sol_reserves,
                            final_token_reserve: trade.new_token_reserves,
                        },
                    )
                } else {
                    None
                },
                event: TradeEvent::Purchased(
                    TokenPurchased {
                        token_mint: self.token_mint,
                        buyer: self.user,
                        sol_amount: trade.amount_in,
                        token_amount: trade.amount_out,
                        fee_amount: trade.fee_amount,
                        price,
                        new_sol_reserves: trade.new_sol_reserves,
                        new_token_reserves: trade.new_token_reserves,
                    },
                ),
            }
        } else {
            SwapReceipt {
                trade,
                completed: None,
                event: TradeEvent::Sold(
                    TokenSold {
                        token_mint: self.token_mint,
                        seller: self.user,
                        sol_amount: trade.amount_out,
                        token_amount: trade.amount_in,
                        fee_amount: trade.fee_amount,
                        price,
                        new_sol_reserves: trade.new_sol_reserves,
                        new_token_reserves: trade.new_token_reserves,
                    },
                ),
            }
        }
    }

    /// What `swap` does: the failure, or the curve after the trade and the
    /// receipt. A paused system refuses first, then a completed curve, an
    /// unknown direction, a dust amount, for a buy a buyer who cannot pay,
    /// and a fee recipient other than the configured one; the rest is the
    /// buy or the sell.
    pub open spec fn outcome(self, amount: u64, direction: u8, min_out: u64) -> Result<
        (BondingCurve, SwapReceipt),
        SwifeyError,
    > {
        if self.global_config.is_paused {
            Err(SwifeyError::ContractPaused)
        } else if self.bonding_curve.is_completed {
            Err(SwifeyError::CurveLimitReached)
        } else if direction != DIRECTION_BUY && direction != DIRECTION_SELL {
            Err(SwifeyError::InvalidDirection)
        } else if direction == DIRECTION_BUY {
            if amount < MIN_BUY_AMOUNT {
                Err(SwifeyError::DustAmount)
            } else if self.user_balance < amount {
                Err(SwifeyError::InsufficientUserBalance)
            } else if self.fee_recipient != self.global_config.fee_recipient {
                Err(SwifeyError::IncorrectFeeRecipient)
            } else {
                match self.bonding_curve.buy_outcome(
                    self.global_config,
                    self.user_balance,
                    self.curve_token_balance,
                    amount,
                    min_out,
                ) {
                    Err(e) => Err(e),
                    Ok((curve, trade)) => Ok((curve, self.receipt_of(direction, trade))),
                }
            }
        } else {
            if amount < MIN_SELL_AMOUNT {
                Err(SwifeyError::DustAmount)
            } else if self.fee_recipient != self.global_config.fee_recipient {
                Err(SwifeyError::IncorrectFeeRecipient)
            } else {
                match self.bonding_curve.sell_outcome(
                    self.global_config,
                    self.user_token_balance,
                    self.curve_sol_balance,
                    amount,
                    min_out,
                ) {
                    Err(e) => Err(e),
                    Ok((curve, trade)) => Ok((curve, self.receipt_of(direction, trade))),
                }
            }
        }
    }
}

/// Settles a trade of `amount` in `direction` (0 buys, 1 sells) for at
/// least `min_out`. Refused, it changes nothing; settled, it changes the
/// curve and nothing else.
pub fn swap(ctx: &mut Swap, amount: u64, direction: u8, min_out: u64) -> (r: Result<
    SwapReceipt,
    SwifeyError,
>)
    ensures
        match old(ctx).outcome(amount, direction, min_out) {
            Ok((curve, receipt)) => {
                &&& r == Ok::<SwapReceipt, SwifeyError>(receipt)
                &&& *final(ctx) == (Swap { bonding_curve: curve, ..*old(ctx) })
            },
            Err(e) => {
                &&& r == Err::<SwapReceipt, SwifeyError>(e)
                &&& *final(ctx) == *old(ctx)
            },
        },
{
    if ctx.global_config.is_paused {
        return Err(SwifeyError::ContractPaused);
    }
    if ctx.bonding_curve.is_completed {
        return Err(SwifeyError::CurveLimitReached);
    }
    if direction != DIRECTION_BUY && direction != DIRECTION_SELL {
        return Err(SwifeyError::InvalidDirection);
    }
    if direction == DIRECTION_BUY {
        if amount < MIN_BUY_AMOUNT {
            return Err(SwifeyError::DustAmount);
        }
        if ctx.user_balance < amount {
            return Err(SwifeyError::InsufficientUserBalance);
        }
        if !ctx.fee_recipient.same(&ctx.global_config.fee_recipient) {
            return Err(SwifeyError::IncorrectFeeRecipient);
        }
        let config = ctx.global_config;
        let trade = ctx.bonding_curve.buy(
            &config,
            ctx.user_balance,
            ctx.curve_token_balance,
            amount,
            min_out,
        )?;
        let price = announced_price(trade.new_sol_reserves, trade.new_token_reserves);
        let completed = if trade.is_completed {
            Some(
                CurveCompleted {
                    token_mint: ctx.token_mint,
                    final_sol_reserve: trade.new_sol_reserves,
                    final_token_reserve: trade.new_token_reserves,
                },
            )
        } else {
            None
        };
        Ok(
            SwapReceipt {
                trade,
                completed,
                event: TradeEvent::Purchased(
                    TokenPurchased {
                        token_mint: ctx.token_mint,
                        buyer: ctx.user,
                        sol_amount: trade.amount_in,
                        token_amount: trade.amount_out,
                        fee_amount: trade.fee_amount,
                        price,
                        new_sol_reserves: trade.new_sol_reserves,
                        new_token_reserves: trade.new_token_reserves,
                    },
                ),
            },
        )
    } else {
        if amount < MIN_SELL_AMOUNT {
            return Err(SwifeyError::DustAmount);
        }
        if !ctx.fee_recipient.same(&ctx.global_config.fee_recipient) {
            return Err(SwifeyError::IncorrectFeeRecipient);
        }
        let config = ctx.global_config;
        let trade = ctx.bonding_curve.sell(
            &config,
            ctx.user_token_balance,
            ctx.curve_sol_balance,
            amount,
            min_out,
        )?;
        let price = announced_price(trade.new_sol_reserves, trade.new_token_reserves);
        Ok(
            SwapReceipt {
                trade,
                completed: None,
                event: TradeEvent::Sold(
                    TokenSold {
                        token_mint: ctx.token_mint,
                        seller: ctx.user,
                        sol_amount: trade.amount_out,
                        token_amount: trade.amount_in,
                        fee_amount: trade.fee_amount,
                        price,
                        new_sol_reserves: trade.new_sol_reserves,
                        new_token_reserves: trade.new_token_reserves,
                    },
                ),
            },
        )
    }
}

} // verus!
