//! The records that the operations hand out for whoever watches the market.
//! They only report: nothing here decides anything.

use vstd::prelude::*;
use crate::address::Address;

verus! {

/// A completed curve's liquidity was handed to the pool.
#[derive(Clone, Copy, Debug, PartialEq, Eq)]
pub struct MigrationCompleted {
    pub token_mint: Address,
    /// Base currency sent to the pool, after the fee.
    pub sol_amount: u64,
    pub token_amount: u64,
    pub migration_fee: u64,
    pub raydium_pool: Address,
}

/// Tokens were sold to the curve.
#[derive(Clone, Copy, Debug, PartialEq, Eq)]
pub struct TokenSold {
    pub token_mint: Address,
    pub seller: Address,
    /// Base currency quoted for the tokens, before the fee.
    pub sol_amount: u64,
    pub token_amount: u64,
    pub fee_amount: u64,
    pub price: u64,
    pub new_sol_reserves: u64,
    pub new_token_reserves: u64,
}

/// Tokens were bought from the curve.
#[derive(Clone, Copy, Debug, PartialEq, Eq)]
pub struct TokenPurchased {
    pub token_mint: Address,
    pub buyer: Address,
    /// Base currency paid, fee included.
    pub sol_amount: u64,
    pub token_amount: u64,
    pub fee_amount: u64,
    pub price: u64,
    pub new_sol_reserves: u64,
    pub new_token_reserves: u64,
}

/// A buy brought the curve to its limit.
#[derive(Clone, Copy, Debug, PartialEq, Eq)]
pub struct CurveCompleted {
    pub token_mint: Address,
    pub final_sol_reserve: u64,
    pub final_token_reserve: u64,
}

/// A token was launched on a new curve.
#[derive(Clone, Debug, PartialEq, Eq)]
pub struct TokenLaunched {
    pub token_mint: Address,
    pub name: String,
    pub symbol: String,
    pub uri: String,
    pub creator: Address,
    pub initial_virtual_sol_reserve: u64,
    pub initial_virtual_token_reserve: u64,
    pub total_token_supply: u64,
    pub curve_limit: u64,
}

/// The system was configured for the first time.
#[derive(Clone, Copy, Debug, PartialEq, Eq)]
pub struct ConfigurationInitialized {
    pub admin: Address,
    pub authority: Address,
    pub fee_recipient: Address,
    pub curve_limit: u64,
    pub initial_virtual_token_reserve: u64,
    pub initial_virtual_sol_reserve: u64,
    pub initial_real_token_reserve: u64,
    pub total_token_supply: u64,
    pub buy_fee_percentage: u64,
    pub sell_fee_percentage: u64,
    pub migration_fee_percentage: u64,
    pub is_paused: bool,
    pub timestamp: i64,
}

/// The authority changed the configuration.
#[derive(Clone, Copy, Debug, PartialEq, Eq)]
pub struct ConfigurationUpdated {
    pub admin: Address,
    pub old_authority: Address,
    pub new_authority: Address,
    pub old_fee_recipient: Address,
    pub new_fee_recipient: Address,
    pub old_curve_limit: u64,
    pub new_curve_limit: u64,
    pub old_buy_fee_percentage: u64,
    pub new_buy_fee_percentage: u64,
    pub old_sell_fee_percentage: u64,
    pub new_sell_fee_percentage: u64,
    pub old_migration_fee_percentage: u64,
    pub new_migration_fee_percentage: u64,
    pub old_is_paused: bool,
    pub new_is_paused: bool,
    pub timestamp: i64,
}

} // verus!
