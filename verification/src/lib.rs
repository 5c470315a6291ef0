//! A bonding-curve market maker: a token is launched on a curve, priced and
//! traded against a base currency by reserve updates alone, and handed to a
//! pool once the curve has reached its funding target.
//!
//! The library decides and keeps the records; it moves no balance. Each
//! operation takes the balances it depends on as plain values and says in
//! its receipt what has to be moved.

use vstd::prelude::*;

pub mod address;
pub mod constants;
pub mod errors;
pub mod instructions;
pub mod states;
pub mod theorems;
pub mod utils;

pub use crate::instructions::launch::launch;
pub use crate::instructions::swap::swap;

use crate::errors::SwifeyError;
use crate::instructions::configure::{ConfigurationEvent, Configure};
use crate::instructions::migrate::{Migrate, MigrateParams};
use crate::states::config::ConfigSettings;
use crate::utils::events::MigrationCompleted;

verus! {

/// Puts `new_config` in force at the time `timestamp`, or refuses and
/// leaves the configuration as it is.
pub fn configure(ctx: &mut Configure, new_config: ConfigSettings, timestamp: i64) -> (r: Result<
    ConfigurationEvent,
    SwifeyError,
>)
    ensures
        final(ctx).admin == old(ctx).admin,
        match old(ctx).outcome(new_config, timestamp) {
            Ok((config, event)) => {
                &&& r == Ok::<ConfigurationEvent, SwifeyError>(event)
                &&& final(ctx).global_config == config
            },
            Err(e) => {
                &&& r == Err::<ConfigurationEvent, SwifeyError>(e)
                &&& final(ctx).global_config == old(ctx).global_config
            },
        },
{
    ctx.process(new_config, timestamp)
}

/// Hands the liquidity of a completed curve to the pool, once; refused, it
/// changes nothing.
pub fn migrate(ctx: &mut Migrate, params: MigrateParams) -> (r: Result<
    MigrationCompleted,
    SwifeyError,
>)
    ensures
        match old(ctx).fault(params) {
            Some(e) => {
                &&& r == Err::<MigrationCompleted, SwifeyError>(e)
                &&& *final(ctx) == *old(ctx)
            },
            None => {
                &&& r == Ok::<MigrationCompleted, SwifeyError>(old(ctx).announcement())
                &&& *final(ctx) == old(ctx).migrated()
            },
        },
{
    ctx.process(params)
}

} // verus!
