//! Setting the global configuration, first by anyone, afterwards by its authority.

use vstd::prelude::*;
use crate::address::Address;
use crate::errors::SwifeyError;
use crate::states::config::{Config, ConfigSettings};
use crate::utils::events::{ConfigurationInitialized, ConfigurationUpdated};

verus! {

/// What `configure` works on.
#[derive(Clone, Copy, Debug, PartialEq, Eq)]
pub struct Configure {
    /// Who asks.
    pub admin: Address,
    /// The configuration in force; unconfigured before the first call.
    pub global_config: Config,
}

/// What a successful `configure` announces.
#[derive(Clone, Copy, Debug, PartialEq, Eq)]
pub enum ConfigurationEvent {
    Initialized(ConfigurationInitialized),
    Updated(ConfigurationUpdated),
}

/// The configuration made of `settings`.
pub open spec fn config_of(settings: ConfigSettings) -> Config {
    Config {
        authority: settings.authority,
        fee_recipient: settings.fee_recipient,
        curve_limit: settings.curve_limit,
        initial_virtual_token_reserve: settings.initial_virtual_token_reserve,
        initial_virtual_sol_reserve: settings.initial_virtual_sol_reserve,
        initial_real_token_reserve: settings.initial_real_token_reserve,
        total_token_supply: settings.total_token_supply,
        buy_fee_percentage: settings.buy_fee_percentage,
        sell_fee_percentage: settings.sell_fee_percentage,
        migration_fee_percentage: settings.migration_fee_percentage,
        max_price_impact: settings.max_price_impact,
        is_paused: settings.is_paused,
    }
}

/// The announcement of a first configuration.
pub open spec fn initialized_event(
    admin: Address,
    settings: ConfigSettings,
    timestamp: i64,
) -> ConfigurationInitialized {
    ConfigurationInitialized {
        admin,
        authority: settings.authority,
        fee_recipient: settings.fee_recipient,
        curve_limit: settings.curve_limit,
        initial_virtual_token_reserve: settings.initial_virtual_token_reserve,
        initial_virtual_sol_reserve: settings.initial_virtual_sol_reserve,
        initial_real_token_reserve: settings.initial_real_token_reserve,
        total_token_supply: settings.total_token_supply,
        buy_fee_percentage: settings.buy_fee_percentage,
        sell_fee_percentage: settings.sell_fee_percentage,
        migration_fee_percentage: settings.migration_fee_percentage,
        is_paused: settings.is_paused,
        timestamp,
    }
}

/// The announcement of a change from `old` to `settings`.
pub open spec fn updated_event(
    admin: Address,
    old: Config,
    settings: ConfigSettings,
    timestamp: i64,
) -> ConfigurationUpdated {
    ConfigurationUpdated {
        admin,
        old_authority: old.authority,
        new_authority: settings.authority,
        old_fee_recipient: old.fee_recipient,
        new_fee_recipient: settings.fee_recipient,
        old_curve_limit: old.curve_limit,
        new_curve_limit: settings.curve_limit,
        old_buy_fee_percentage: old.buy_fee_percentage,
        new_buy_fee_percentage: settings.buy_fee_percentage,
        old_sell_fee_percentage: old.sell_fee_percentage,
        new_sell_fee_percentage: settings.sell_fee_percentage,
        old_migration_fee_percentage: old.migration_fee_percentage,
        new_migration_fee_percentage: settings.migration_fee_percentage,
        old_is_paused: old.is_paused,
        new_is_paused: settings.is_paused,
        timestamp,
    }
}

impl Configure {
    /// What `process` does: the failure, or the new configuration and its
    /// announcement. Invalid settings are refused first; then anyone but
    /// the authority is refused, unless nothing is configured yet.
    pub open spec fn outcome(self, new_config: ConfigSettings, timestamp: i64) -> Result<
        (Config, ConfigurationEvent),
        SwifeyError,
    > {
        match new_config.fault() {
            Some(e) => Err(e),
            None => if self.global_config.is_unconfigured() {
                Ok(
                    (
                        config_of(new_config),
                        ConfigurationEvent::Initialized(
                            initialized_event(self.admin, new_config, timestamp),
                        ),
                    ),
                )
            } else if self.global_config.authority != self.admin {
                Err(SwifeyError::UnauthorizedAddress)
            } else {
                Ok(
                    (
                        config_of(new_config),
                        ConfigurationEvent::Updated(
                            updated_event(self.admin, self.global_config, new_config, timestamp),
                        ),
                    ),
                )
            },
        }
    }

    /// Puts `new_config` in force at the time `timestamp`, or refuses and
    /// leaves the configuration as it is.
    pub fn process(&mut self, new_config: ConfigSettings, timestamp: i64) -> (r: Result<
        ConfigurationEvent,
        SwifeyError,
    >)
        ensures
            final(self).admin == old(self).admin,
            r is Ok ==> final(self).global_config.valid(),
            match old(self).outcome(new_config, timestamp) {
                Ok((config, event)) => {
                    &&& r == Ok::<ConfigurationEvent, SwifeyError>(event)
                    &&& final(self).global_config == config
                },
                Err(e) => {
                    &&& r == Err::<ConfigurationEvent, SwifeyError>(e)
                    &&& final(self).global_config == old(self).global_config
                },
            },
    {
        new_config.validate()?;
        let is_initialization = self.global_config.authority.is_default();
        if !is_initialization {
            if !self.global_config.authority.same(&self.admin) {
                return Err(SwifeyError::UnauthorizedAddress);
            }
            let old_config = self.global_config;
            self.update_config(&new_config);
            Ok(
                ConfigurationEvent::Updated(
                    ConfigurationUpdated {
                        admin: self.admin,
                        old_authority: old_config.authority,
                        new_authority: new_config.authority,
                        old_fee_recipient: old_config.fee_recipient,
                        new_fee_recipient: new_config.fee_recipient,
                        old_curve_limit: old_config.curve_limit,
                        new_curve_limit: new_config.curve_limit,
                        old_buy_fee_percentage: old_config.buy_fee_percentage,
                        new_buy_fee_percentage: new_config.buy_fee_percentage,
                        old_sell_fee_percentage: old_config.sell_fee_percentage,
                        new_sell_fee_percentage: new_config.sell_fee_percentage,
                        old_migration_fee_percentage: old_config.migration_fee_percentage,
                        new_migration_fee_percentage: new_config.migration_fee_percentage,
                        old_is_paused: old_config.is_paused,
                        new_is_paused: new_config.is_paused,
                        timestamp,
                    },
                ),
            )
        } else {
            self.update_config(&new_config);
            Ok(
                ConfigurationEvent::Initialized(
                    ConfigurationInitialized {
                        admin: self.admin,
                        authority: new_config.authority,
                        fee_recipient: new_config.fee_recipient,
                        curve_limit: new_config.curve_limit,
                        initial_virtual_token_reserve: new_config.initial_virtual_token_reserve,
                        initial_virtual_sol_reserve: new_config.initial_virtual_sol_reserve,
                        initial_real_token_reserve: new_config.initial_real_token_reserve,
                        total_token_supply: new_config.total_token_supply,
                        buy_fee_percentage: new_config.buy_fee_percentage,
                        sell_fee_percentage: new_config.sell_fee_percentage,
                        migration_fee_percentage: new_config.migration_fee_percentage,
                        is_paused: new_config.is_paused,
                        timestamp,
                    },
                ),
            )
        }
    }

    /// Copies every setting into the configuration.
    fn update_config(&mut self, new_config: &ConfigSettings)
        ensures
            final(self).admin == old(self).admin,
            final(self).global_config == config_of(*new_config),
    {
        self.global_config.authority = new_config.authority;
        self.global_config.fee_recipient = new_config.fee_recipient;
        self.global_config.curve_limit = new_config.curve_limit;
        self.global_config.initial_virtual_token_reserve = new_config.initial_virtual_token_reserve;
        self.global_config.initial_virtual_sol_reserve = new_config.initial_virtual_sol_reserve;
        self.global_config.initial_real_token_reserve = new_config.initial_real_token_reserve;
        self.global_config.total_token_supply = new_config.total_token_supply;
        self.global_config.buy_fee_percentage = new_config.buy_fee_percentage;
        self.global_config.sell_fee_percentage = new_config.sell_fee_percentage;
        self.global_config.migration_fee_percentage = new_config.migration_fee_percentage;
        self.global_config.max_price_impact = new_config.max_price_impact;
        self.global_config.is_paused = new_config.is_paused;
    }
}

} // verus!
