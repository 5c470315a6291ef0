//! The failures that any operation of the market maker can report.

use vstd::prelude::*;

verus! {

/// Why an operation was refused. A refused operation has changed nothing.
#[derive(Clone, Copy, Debug, PartialEq, Eq, Structural)]
pub enum SwifeyError {
    /// The caller is not the configured authority.
    UnauthorizedAddress,
    /// The curve has reached its funding target and no longer trades.
    CurveLimitReached,
    /// A value is outside the range expected of it.
    IncorrectValueRange,
    /// The trade would pay out less than the caller's minimum.
    InsufficientAmountOut,
    /// An account lacks the funds for what is asked of it.
    InsufficientFunds,
    /// The fee recipient is not the configured one.
    IncorrectFeeRecipient,
    /// The reserves are in a state no trade can start from.
    InvalidReserves,
    /// The curve has not been set up.
    CurveNotInitialized,
    /// Migration was asked for before the curve completed.
    CurveNotCompleted,
    /// The curve's liquidity has already been handed to the pool.
    AlreadyMigrated,
    /// A result does not fit the integer that has to hold it.
    MathOverflow,
    /// The curve's custody holds too little base currency.
    InsufficientSolBalance,
    /// The curve's custody holds too few tokens.
    InsufficientTokenBalance,
    /// The pool account is not owned by the pool program.
    InvalidPoolOwner,
    /// The pool is not open for swaps.
    InvalidPoolState,
    /// Neither asset of the pool is the curve's token.
    InvalidPoolTokens,
    /// Migration would hand over less than the caller's minimum.
    SlippageExceeded,
    /// A divisor is zero.
    DivisionByZero,
    /// A fee rate is above 100%.
    InvalidFeePercentage,
    /// The token reserves do not fit the supply.
    InvalidTokenAllocation,
    /// A reserve would fall below its floor.
    InsufficientLiquidity,
    /// The funding target is not above the initial reserve.
    InvalidCurveLimit,
    /// Trading and launching are paused.
    ContractPaused,
    /// The direction is neither buy nor sell.
    InvalidDirection,
    /// The trade is below the smallest amount worth settling.
    DustAmount,
    /// The trader cannot pay for the trade.
    InsufficientUserBalance,
    /// The trade would move the price further than the configured ceiling.
    ExcessivePriceImpact,
}

} // verus!
