//! Scales, curve parameters and trade limits shared by every module.

use vstd::prelude::*;

verus! {

/// Decimal places of a launched token.
pub const TOKEN_DECIMAL: u8 = 6;

/// Scale of the wide fixed-point helpers: `1.0` is `10^12`.
pub const PRECISION: u128 = 1_000_000_000_000;

/// Scale of the 64-bit fixed-point functions: `1.0` is `10^9`.
pub const PRECISION_U64: u64 = 1_000_000_000;

/// Denominator of every fee rate: `10_000` is 100%.
pub const FEE_PRECISION: u64 = 10_000;

/// The reserve ratio of the curve is `CRR_NUMERATOR / CRR_DENOMINATOR`, that is 0.651.
pub const CRR_NUMERATOR: u64 = 6510;

/// What `CRR_NUMERATOR` is a share of.
pub const CRR_DENOMINATOR: u64 = 10000;

/// Base-currency amount at which a curve counts as funded, in lamports.
pub const TARGET_SOL_AMOUNT: u64 = 100_000_000_000;

/// Virtual base-currency reserve a curve usually starts with, in lamports.
pub const INITIAL_SOL_RESERVE: u64 = 12_500_000_000;

/// Share of the supply placed in the virtual token reserve, over `FEE_PRECISION`.
pub const TOKEN_RESERVE_PERCENTAGE: u64 = 10_000;

/// Smallest units in one unit of the base currency.
pub const LAMPORTS_PER_SOL: u64 = 1_000_000_000;

/// A buy below this amount of base currency is dust.
pub const MIN_BUY_AMOUNT: u64 = 1_000_000;

/// A sell below this amount of tokens is dust.
pub const MIN_SELL_AMOUNT: u64 = 1_000;

/// Usual ceiling on the price change of one trade, in basis points.
pub const MAX_PRICE_IMPACT_BPS: u64 = 1000;

/// One basis point is one part in this many.
pub const BPS_DENOMINATOR: u64 = 10_000;

} // verus!
