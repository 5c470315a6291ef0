//! Handing a completed curve's liquidity to the pool, once.

use vstd::prelude::*;
use crate::address::Address;
use crate::errors::SwifeyError;
use crate::states::bonding_curve::BondingCurve;
use crate::states::config::Config;
use crate::utils::events::MigrationCompleted;
use crate::utils::fixed_math::{calculate_fee_amount, fee_value};

verus! {

/// What a pool can be closed for, each with its own bit of the pool's status.
#[derive(Clone, Copy, Debug, PartialEq, Eq)]
pub enum PoolStatusBitIndex {
    OpenPositionOrIncreaseLiquidity,
    DecreaseLiquidity,
    CollectFee,
    CollectReward,
    Swap,
}

/// What is read of the pool that is to take the liquidity.
#[derive(Clone, Copy, Debug, PartialEq, Eq)]
pub struct PoolState {
    /// The program that owns the pool's account.
    pub owner: Address,
    /// One bit for each `PoolStatusBitIndex`, the first in the lowest bit:
    /// set, the pool is closed for it.
    pub status: u8,
    /// The two assets the pool trades.
    pub token_mint_0: Address,
    pub token_mint_1: Address,
}

impl PoolStatusBitIndex {
    /// The status with this bit alone set.
    pub open spec fn mask(self) -> u8 {
        match self {
            PoolStatusBitIndex::OpenPositionOrIncreaseLiquidity => 1,
            PoolStatusBitIndex::DecreaseLiquidity => 2,
            PoolStatusBitIndex::CollectFee => 4,
            PoolStatusBitIndex::CollectReward => 8,
            PoolStatusBitIndex::Swap => 16,
        }
    }
}

/// What `migrate` works on.
#[derive(Clone, Copy, Debug, PartialEq, Eq)]
pub struct Migrate {
    /// Who asks.
    pub authority: Address,
    pub config: Config,
    pub bonding_curve: BondingCurve,
    pub token_mint: Address,
    /// The identity of the base currency as an asset of a pool.
    pub base_mint: Address,
    /// Tokens in the curve's custody.
    pub curve_token_balance: u64,
    /// Base currency in the curve's custody.
    pub curve_sol_balance: u64,
    /// The pool's account and what it holds.
    pub raydium_pool: Address,
    pub pool: PoolState,
    /// The program a pool has to be owned by.
    pub pool_program: Address,
    /// The account that is to be paid the fee.
    pub fee_recipient: Address,
}

/// The least the caller accepts for the pool.
#[derive(Clone, Copy, Debug, PartialEq, Eq)]
pub struct MigrateParams {
    pub minimum_sol_amount: u64,
    pub minimum_token_amount: u64,
}

impl PoolState {
    /// Whether the pool is open for what `bit` stands for: its bit is clear.
    pub open spec fn open_for(self, bit: PoolStatusBitIndex) -> bool {
        self.status & bit.mask() == 0
    }

    /// Says whether the pool is open for what `bit` stands for.
    pub fn get_status_by_bit(&self, bit: PoolStatusBitIndex) -> (r: bool)
        ensures
            r == self.open_for(bit),
    {
        let mask: u8 = match bit {
            PoolStatusBitIndex::OpenPositionOrIncreaseLiquidity => 1,
            PoolStatusBitIndex::DecreaseLiquidity => 2,
            PoolStatusBitIndex::CollectFee => 4,
            PoolStatusBitIndex::CollectReward => 8,
            PoolStatusBitIndex::Swap => 16,
        };
        self.status & mask == 0
    }

    /// Whether the pool trades exactly the token and the base currency.
    pub open spec fn trades(self, token_mint: Address, base_mint: Address) -> bool {
        ||| self.token_mint_0 == token_mint && self.token_mint_1 == base_mint
        ||| self.token_mint_0 == base_mint && self.token_mint_1 == token_mint
    }
}

impl Migrate {
    /// The migration fee: the configured share of the base currency in custody.
    pub open spec fn fee(self) -> int {
        fee_value(self.curve_sol_balance as int, self.config.migration_fee_percentage as int)
    }

    /// Why the migration is refused, if it is. The checks come in this
    /// order: the caller; the curve's lifecycle; the fee recipient; the
    /// pool's owner, state and assets; the balances in custody; the fee;
    /// the caller's minima.
    pub open spec fn fault(self, params: MigrateParams) -> Option<SwifeyError> {
        if self.authority != self.config.authority {
            Some(SwifeyError::UnauthorizedAddress)
        } else if !self.bonding_curve.is_completed {
            Some(SwifeyError::CurveNotCompleted)
        } else if self.bonding_curve.is_migrated {
            Some(SwifeyError::AlreadyMigrated)
        } else if self.fee_recipient != self.config.fee_recipient {
            Some(SwifeyError::IncorrectFeeRecipient)
        } else if self.pool.owner != self.pool_program {
            Some(SwifeyError::InvalidPoolOwner)
        } else if !self.pool.open_for(PoolStatusBitIndex::Swap) {
            Some(SwifeyError::InvalidPoolState)
        } else if !self.pool.trades(self.token_mint, self.base_mint) {
            Some(SwifeyError::InvalidPoolTokens)
        } else if self.curve_token_balance == 0 {
            Some(SwifeyError::InsufficientTokenBalance)
        } else if self.curve_sol_balance == 0 {
            Some(SwifeyError::InsufficientSolBalance)
        } else if self.fee() > u64::MAX {
            Some(SwifeyError::MathOverflow)
        } else if self.fee() > self.curve_sol_balance {
            Some(SwifeyError::InsufficientSolBalance)
        } else if self.curve_sol_balance - self.fee() < params.minimum_sol_amount
            || self.curve_token_balance < params.minimum_token_amount {
            Some(SwifeyError::SlippageExceeded)
        } else {
            None
        }
    }

    /// What a migration that is not refused announces: the fee goes to the
    /// fee recipient, the rest of the base currency and every token to the pool.
    pub open spec fn announcement(self) -> MigrationCompleted {
        MigrationCompleted {
            token_mint: self.token_mint,
            sol_amount: (self.curve_sol_balance - self.fee()) as u64,
            token_amount: self.curve_token_balance,
            migration_fee: self.fee() as u64,
            raydium_pool: self.raydium_pool,
        }
    }

    /// These accounts after a migration: the curve is marked migrated, and
    /// nothing else has changed.
    pub open spec fn migrated(self) -> Migrate {
        Migrate { bonding_curve: BondingCurve { is_migrated: true, ..self.bonding_curve }, ..self }
    }

    /// Settles the migration: checks it, marks the curve migrated and says
    /// what to move. Refused, it changes nothing. Nothing but the curve's
    /// migration mark ever changes.
    pub fn process(&mut self, params: MigrateParams) -> (r: Result<MigrationCompleted, SwifeyError>)
        ensures
            match old(self).fault(params) {
                Some(e) => {
                    &&& r == Err::<MigrationCompleted, SwifeyError>(e)
                    &&& *final(self) == *old(self)
                },
                None => {
                    &&& r == Ok::<MigrationCompleted, SwifeyError>(old(self).announcement())
                    &&& *final(self) == old(self).migrated()
                    &&& r->Ok_0.sol_amount + r->Ok_0.migration_fee == old(self).curve_sol_balance
                },
            },
    {
        if !self.authority.same(&self.config.authority) {
            return Err(SwifeyError::UnauthorizedAddress);
        }
        self.bonding_curve.check_migration_eligibility()?;
        if !self.fee_recipient.same(&self.config.fee_recipient) {
            return Err(SwifeyError::IncorrectFeeRecipient);
        }
        if !self.pool.owner.same(&self.pool_program) {
            return Err(SwifeyError::InvalidPoolOwner);
        }
        if !self.pool.get_status_by_bit(PoolStatusBitIndex::Swap) {
            return Err(SwifeyError::InvalidPoolState);
        }
        let token_first = self.pool.token_mint_0.same(&self.token_mint)
            && self.pool.token_mint_1.same(&self.base_mint);
        let base_first = self.pool.token_mint_0.same(&self.base_mint)
            && self.pool.token_mint_1.same(&self.token_mint);
        if !token_first && !base_first {
            return Err(SwifeyError::InvalidPoolTokens);
        }
        if self.curve_token_balance == 0 {
            return Err(SwifeyError::InsufficientTokenBalance);
        }
        let sol_balance = self.curve_sol_balance;
        if sol_balance == 0 {
            return Err(SwifeyError::InsufficientSolBalance);
        }
        let migration_fee = calculate_fee_amount(sol_balance, self.config.migration_fee_percentage)?;
        let remaining_sol = match sol_balance.checked_sub(migration_fee) {
            Some(v) => v,
            None => {
                return Err(SwifeyError::InsufficientSolBalance);
            },
        };
        let token_balance = self.curve_token_balance;
        if remaining_sol < params.minimum_sol_amount {
            return Err(SwifeyError::SlippageExceeded);
        }
        if token_balance < params.minimum_token_amount {
            return Err(SwifeyError::SlippageExceeded);
        }
        self.bonding_curve.update_migration_state()?;
        Ok(
            MigrationCompleted {
                token_mint: self.token_mint,
                sol_amount: remaining_sol,
                token_amount: token_balance,
                migration_fee,
                raydium_pool: self.raydium_pool,
            },
        )
    }
}

} // verus!
