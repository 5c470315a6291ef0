//! Launching a token on a new curve.

use vstd::prelude::*;
use crate::address::Address;
use crate::errors::SwifeyError;
use crate::states::bonding_curve::BondingCurve;
use crate::states::config::{check_curve_parameters, curve_parameters_fault, Config};
use crate::utils::events::TokenLaunched;

verus! {

/// What `launch` works on.
#[derive(Clone, Copy, Debug, PartialEq, Eq)]
pub struct Launch {
    pub creator: Address,
    pub global_config: Config,
    pub token_mint: Address,
    /// The record of the new curve; `launch` fills it.
    pub bonding_curve: BondingCurve,
}

/// What a successful launch asks to be done, and what it announces.
#[derive(Clone, Debug, PartialEq, Eq)]
pub struct LaunchReceipt {
    /// Base currency to move from the creator to the curve as its buffer.
    pub rent_buffer: u64,
    /// Tokens to mint into the curve's custody before minting is closed for good.
    pub mint_amount: u64,
    pub event: TokenLaunched,
}

/// A curve as it is launched under `config`, with `rent_buffer` base
/// currency in custody: trading, with the configured reserves.
pub open spec fn launched_curve(config: Config, rent_buffer: u64) -> BondingCurve {
    BondingCurve {
        virtual_token_reserve: config.initial_virtual_token_reserve,
        virtual_sol_reserve: config.initial_virtual_sol_reserve,
        real_token_reserve: config.initial_real_token_reserve,
        real_sol_reserve: rent_buffer,
        token_total_supply: config.total_token_supply,
        is_completed: false,
        is_migrated: false,
    }
}

/// Why a launch under `config` with an account minimum of `min_rent` fails,
/// if it does: the pause first, then a buffer that does not fit, then the
/// curve parameters.
pub open spec fn launch_fault(config: Config, min_rent: u64) -> Option<SwifeyError> {
    if config.is_paused {
        Some(SwifeyError::ContractPaused)
    } else if min_rent * 2 > u64::MAX {
        Some(SwifeyError::MathOverflow)
    } else {
        curve_parameters_fault(
            config.initial_virtual_token_reserve,
            config.initial_virtual_sol_reserve,
            config.initial_real_token_reserve,
            config.total_token_supply,
            config.curve_limit,
        )
    }
}

/// Starts the curve of `ctx.token_mint`: twice `min_rent` is its buffer,
/// the whole supply is to be minted into its custody, and its reserves are
/// the configured ones. On failure the curve's record is unchanged.
pub fn launch(ctx: &mut Launch, name: String, symbol: String, uri: String, min_rent: u64) -> (r:
    Result<LaunchReceipt, SwifeyError>)
    ensures
        final(ctx).creator == old(ctx).creator,
        final(ctx).global_config == old(ctx).global_config,
        final(ctx).token_mint == old(ctx).token_mint,
        match launch_fault(old(ctx).global_config, min_rent) {
            Some(e) => {
                &&& r == Err::<LaunchReceipt, SwifeyError>(e)
                &&& final(ctx).bonding_curve == old(ctx).bonding_curve
            },
            None => {
                let config = old(ctx).global_config;
                let curve = final(ctx).bonding_curve;
                &&& r is Ok
                &&& curve == launched_curve(config, (min_rent * 2) as u64)
                &&& curve.well_formed()
                &&& r->Ok_0.rent_buffer == min_rent * 2
                &&& r->Ok_0.mint_amount == config.total_token_supply
                &&& r->Ok_0.event.token_mint == old(ctx).token_mint
                &&& r->Ok_0.event.creator == old(ctx).creator
                &&& r->Ok_0.event.name == name
                &&& r->Ok_0.event.symbol == symbol
                &&& r->Ok_0.event.uri == uri
                &&& r->Ok_0.event.initial_virtual_sol_reserve == config.initial_virtual_sol_reserve
                &&& r->Ok_0.event.initial_virtual_token_reserve
                    == config.initial_virtual_token_reserve
                &&& r->Ok_0.event.total_token_supply == config.total_token_supply
                &&& r->Ok_0.event.curve_limit == config.curve_limit
            },
        },
{
    if ctx.global_config.is_paused {
        return Err(SwifeyError::ContractPaused);
    }
    let rent_buffer = match min_rent.checked_mul(2) {
        Some(v) => v,
        None => {
            return Err(SwifeyError::MathOverflow);
        },
    };
    check_curve_parameters(
        ctx.global_config.initial_virtual_token_reserve,
        ctx.global_config.initial_virtual_sol_reserve,
        ctx.global_config.initial_real_token_reserve,
        ctx.global_config.total_token_supply,
        ctx.global_config.curve_limit,
    )?;
    ctx.bonding_curve.virtual_token_reserve = ctx.global_config.initial_virtual_token_reserve;
    ctx.bonding_curve.virtual_sol_reserve = ctx.global_config.initial_virtual_sol_reserve;
    ctx.bonding_curve.real_token_reserve = ctx.global_config.initial_real_token_reserve;
    ctx.bonding_curve.real_sol_reserve = rent_buffer;
    ctx.bonding_curve.token_total_supply = ctx.global_config.total_token_supply;
    ctx.bonding_curve.is_completed = false;
    ctx.bonding_curve.is_migrated = false;
    Ok(
        LaunchReceipt {
            rent_buffer,
            mint_amount: ctx.global_config.total_token_supply,
            event: TokenLaunched {
                token_mint: ctx.token_mint,
                name,
                symbol,
                uri,
                creator: ctx.creator,
                initial_virtual_sol_reserve: ctx.global_config.initial_virtual_sol_reserve,
                initial_virtual_token_reserve: ctx.global_config.initial_virtual_token_reserve,
                total_token_supply: ctx.global_config.total_token_supply,
                curve_limit: ctx.global_config.curve_limit,
            },
        },
    )
}

} // verus!
