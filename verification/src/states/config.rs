//! The global configuration: who may change it, where fees go, and the values
//! every new curve starts from.

use vstd::prelude::*;
use crate::address::Address;
use crate::constants::{FEE_PRECISION, LAMPORTS_PER_SOL};
use crate::errors::SwifeyError;

verus! {

/// The settings an operator asks for.
#[derive(Clone, Copy, Debug, PartialEq, Eq)]
pub struct ConfigSettings {
    pub authority: Address,
    pub fee_recipient: Address,
    pub curve_limit: u64,
    pub initial_virtual_token_reserve: u64,
    pub initial_virtual_sol_reserve: u64,
    pub initial_real_token_reserve: u64,
    pub total_token_supply: u64,
    /// Fee rates, in parts of `FEE_PRECISION`.
    pub buy_fee_percentage: u64,
    pub sell_fee_percentage: u64,
    pub migration_fee_percentage: u64,
    /// The most one trade may move the price, in basis points.
    pub max_price_impact: u64,
    pub is_paused: bool,
}

/// The configuration in force.
#[derive(Clone, Copy, Debug, PartialEq, Eq)]
pub struct Config {
    pub authority: Address,
    pub fee_recipient: Address,
    /// Base-currency reserve at which a curve is complete.
    pub curve_limit: u64,
    pub initial_virtual_token_reserve: u64,
    pub initial_virtual_sol_reserve: u64,
    pub initial_real_token_reserve: u64,
    pub total_token_supply: u64,
    /// Fee rates, in parts of `FEE_PRECISION`.
    pub buy_fee_percentage: u64,
    pub sell_fee_percentage: u64,
    pub migration_fee_percentage: u64,
    /// The most one trade may move the price, in basis points.
    pub max_price_impact: u64,
    pub is_paused: bool,
}

/// Whether a virtual token reserve is at least four fifths of the supply.
/// Nothing is rounded: five times the reserve is held against four times
/// the supply.
pub open spec fn covers_four_fifths(virtual_token_reserve: int, total_token_supply: int) -> bool {
    virtual_token_reserve * 100 >= total_token_supply * 80
}

/// What is asked of the curve parameters, with the failure that the first
/// unmet demand gives; `None` when all are met. They are asked in this
/// order: the virtual token reserve covers four fifths of the supply; the
/// virtual base-currency reserve is at least one unit; the limit lies above
/// it; there is a supply; the real token reserve is no more than the virtual.
pub open spec fn curve_parameters_fault(
    initial_virtual_token_reserve: u64,
    initial_virtual_sol_reserve: u64,
    initial_real_token_reserve: u64,
    total_token_supply: u64,
    curve_limit: u64,
) -> Option<SwifeyError> {
    if !covers_four_fifths(initial_virtual_token_reserve as int, total_token_supply as int) {
        Some(SwifeyError::InvalidTokenAllocation)
    } else if initial_virtual_sol_reserve < LAMPORTS_PER_SOL {
        Some(SwifeyError::InsufficientLiquidity)
    } else if curve_limit <= initial_virtual_sol_reserve {
        Some(SwifeyError::InvalidCurveLimit)
    } else if total_token_supply == 0 {
        Some(SwifeyError::InvalidTokenAllocation)
    } else if initial_real_token_reserve > initial_virtual_token_reserve {
        Some(SwifeyError::InvalidTokenAllocation)
    } else {
        None
    }
}

/// Checks the curve parameters in the order of `curve_parameters_fault`.
pub fn check_curve_parameters(
    initial_virtual_token_reserve: u64,
    initial_virtual_sol_reserve: u64,
    initial_real_token_reserve: u64,
    total_token_supply: u64,
    curve_limit: u64,
) -> (r: Result<(), SwifeyError>)
    ensures
        match curve_parameters_fault(
            initial_virtual_token_reserve,
            initial_virtual_sol_reserve,
            initial_real_token_reserve,
            total_token_supply,
            curve_limit,
        ) {
            Some(e) => r == Err::<(), SwifeyError>(e),
            None => r is Ok,
        },
        r is Ok ==> initial_virtual_token_reserve > 0 && initial_virtual_sol_reserve > 0,
{
    if (initial_virtual_token_reserve as u128) * 100 < (total_token_supply as u128) * 80 {
        return Err(SwifeyError::InvalidTokenAllocation);
    }
    if initial_virtual_sol_reserve < LAMPORTS_PER_SOL {
        return Err(SwifeyError::InsufficientLiquidity);
    }
    if curve_limit <= initial_virtual_sol_reserve {
        return Err(SwifeyError::InvalidCurveLimit);
    }
    if total_token_supply == 0 {
        return Err(SwifeyError::InvalidTokenAllocation);
    }
    if initial_real_token_reserve > initial_virtual_token_reserve {
        return Err(SwifeyError::InvalidTokenAllocation);
    }
    Ok(())
}

impl ConfigSettings {
    /// The failure that these settings give, if any: a fee rate above 100%
    /// first, then the curve parameters.
    pub open spec fn fault(self) -> Option<SwifeyError> {
        if self.buy_fee_percentage > FEE_PRECISION || self.sell_fee_percentage > FEE_PRECISION
            || self.migration_fee_percentage > FEE_PRECISION {
            Some(SwifeyError::InvalidFeePercentage)
        } else {
            curve_parameters_fault(
                self.initial_virtual_token_reserve,
                self.initial_virtual_sol_reserve,
                self.initial_real_token_reserve,
                self.total_token_supply,
                self.curve_limit,
            )
        }
    }

    /// Whether a configuration may be made of these settings.
    pub open spec fn valid(self) -> bool {
        self.fault() is None
    }

    /// Accepts the settings or says what is wrong with them.
    pub fn validate(&self) -> (r: Result<(), SwifeyError>)
        ensures
            match self.fault() {
                Some(e) => r == Err::<(), SwifeyError>(e),
                None => r is Ok,
            },
    {
        if self.buy_fee_percentage > FEE_PRECISION || self.sell_fee_percentage > FEE_PRECISION
            || self.migration_fee_percentage > FEE_PRECISION {
            return Err(SwifeyError::InvalidFeePercentage);
        }
        check_curve_parameters(
            self.initial_virtual_token_reserve,
            self.initial_virtual_sol_reserve,
            self.initial_real_token_reserve,
            self.total_token_supply,
            self.curve_limit,
        )
    }
}

impl Default for ConfigSettings {
    /// Nothing set, nothing paused, and no ceiling on the price impact below 100%.
    fn default() -> (r: ConfigSettings)
        ensures
            r.authority.is_unset(),
            r.fee_recipient.is_unset(),
            r.curve_limit == 0,
            r.initial_virtual_token_reserve == 0,
            r.initial_virtual_sol_reserve == 0,
            r.initial_real_token_reserve == 0,
            r.total_token_supply == 0,
            r.buy_fee_percentage == 0,
            r.sell_fee_percentage == 0,
            r.migration_fee_percentage == 0,
            r.max_price_impact == 10000,
            !r.is_paused,
    {
        ConfigSettings {
            authority: Address::default(),
            fee_recipient: Address::default(),
            curve_limit: 0,
            initial_virtual_token_reserve: 0,
            initial_virtual_sol_reserve: 0,
            initial_real_token_reserve: 0,
            total_token_supply: 0,
            buy_fee_percentage: 0,
            sell_fee_percentage: 0,
            migration_fee_percentage: 0,
            max_price_impact: 10000,
            is_paused: false,
        }
    }
}

impl Config {
    /// The name under which the one configuration record is kept.
    pub const SEED_PREFIX: &'static str = "global_config";

    /// The size of the stored record, in bytes.
    pub const LEN: usize = 32 + 32 + 8 + 8 + 8 + 8 + 8 + 8 + 8 + 8 + 8 + 1 + 64;

    /// The settings that this configuration was made of.
    pub open spec fn settings(self) -> ConfigSettings {
        ConfigSettings {
            authority: self.authority,
            fee_recipient: self.fee_recipient,
            curve_limit: self.curve_limit,
            initial_virtual_token_reserve: self.initial_virtual_token_reserve,
            initial_virtual_sol_reserve: self.initial_virtual_sol_reserve,
            initial_real_token_reserve: self.initial_real_token_reserve,
            total_token_supply: self.total_token_supply,
            buy_fee_percentage: self.buy_fee_percentage,
            sell_fee_percentage: self.sell_fee_percentage,
            migration_fee_percentage: self.migration_fee_percentage,
            max_price_impact: self.max_price_impact,
            is_paused: self.is_paused,
        }
    }

    /// A configuration as `configure` leaves it: its settings are valid.
    pub open spec fn valid(self) -> bool {
        self.settings().valid()
    }

    /// Whether nobody has configured the system yet.
    pub open spec fn is_unconfigured(self) -> bool {
        self.authority.is_unset()
    }
}

impl Default for Config {
    /// The configuration before anybody has set one.
    fn default() -> (r: Config)
        ensures
            r.is_unconfigured(),
            r.fee_recipient.is_unset(),
            r.curve_limit == 0,
            r.initial_virtual_token_reserve == 0,
            r.initial_virtual_sol_reserve == 0,
            r.initial_real_token_reserve == 0,
            r.total_token_supply == 0,
            r.buy_fee_percentage == 0,
            r.sell_fee_percentage == 0,
            r.migration_fee_percentage == 0,
            r.max_price_impact == 10000,
            !r.is_paused,
    {
        Config {
            authority: Address::default(),
            fee_recipient: Address::default(),
            curve_limit: 0,
            initial_virtual_token_reserve: 0,
            initial_virtual_sol_reserve: 0,
            initial_real_token_reserve: 0,
            total_token_supply: 0,
            buy_fee_percentage: 0,
            sell_fee_percentage: 0,
            migration_fee_percentage: 0,
            max_price_impact: 10000,
            is_paused: false,
        }
    }
}

} // verus!
