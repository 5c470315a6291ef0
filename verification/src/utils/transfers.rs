//! What a settled operation asks to be moved, in the order in which it is
//! to be moved.
//!
//! The library moves nothing itself. It hands out these orders, and shows
//! that balances on which the operation was settled cover them.

use vstd::prelude::*;
use crate::states::bonding_curve::TradeReceipt;
use crate::utils::events::MigrationCompleted;

verus! {

/// What is moved: the base currency or the curve's token.
#[derive(Clone, Copy, Debug, PartialEq, Eq)]
pub enum Asset {
    BaseCurrency,
    Token,
}

/// Who holds a balance that an operation moves.
#[derive(Clone, Copy, Debug, PartialEq, Eq)]
pub enum Party {
    /// The buyer or the seller.
    Trader,
    /// The curve's custody.
    Custody,
    FeeRecipient,
    /// The pool that takes a migrated curve's liquidity.
    Pool,
}

/// One order to move `amount` of `asset` from one party to another.
#[derive(Clone, Copy, Debug, PartialEq, Eq)]
pub struct Transfer {
    pub asset: Asset,
    pub from: Party,
    pub to: Party,
    pub amount: u64,
}

/// The transfers of a buy: the fee to the fee recipient, the rest of what
/// was paid to the custody, the tokens to the buyer.
pub open spec fn buy_plan(trade: TradeReceipt) -> Seq<Transfer> {
    seq![
        Transfer {
            asset: Asset::BaseCurrency,
            from: Party::Trader,
            to: Party::FeeRecipient,
            amount: trade.fee_amount,
        },
        Transfer {
            asset: Asset::BaseCurrency,
            from: Party::Trader,
            to: Party::Custody,
            amount: trade.net_amount,
        },
        Transfer {
            asset: Asset::Token,
            from: Party::Custody,
            to: Party::Trader,
            amount: trade.amount_out,
        },
    ]
}

/// The transfers of a sell: the tokens to the custody, the payout to the
/// seller, the fee to the fee recipient.
pub open spec fn sell_plan(trade: TradeReceipt) -> Seq<Transfer> {
    seq![
        Transfer {
            asset: Asset::Token,
            from: Party::Trader,
            to: Party::Custody,
            amount: trade.amount_in,
        },
        Transfer {
            asset: Asset::BaseCurrency,
            from: Party::Custody,
            to: Party::Trader,
            amount: trade.net_amount,
        },
        Transfer {
            asset: Asset::BaseCurrency,
            from: Party::Custody,
            to: Party::FeeRecipient,
            amount: trade.fee_amount,
        },
    ]
}

/// The transfers of a migration: the fee to the fee recipient, the rest of
/// the base currency and every token to the pool.
pub open spec fn migration_plan(migration: MigrationCompleted) -> Seq<Transfer> {
    seq![
        Transfer {
            asset: Asset::BaseCurrency,
            from: Party::Custody,
            to: Party::FeeRecipient,
            amount: migration.migration_fee,
        },
        Transfer {
            asset: Asset::BaseCurrency,
            from: Party::Custody,
            to: Party::Pool,
            amount: migration.sol_amount,
        },
        Transfer {
            asset: Asset::Token,
            from: Party::Custody,
            to: Party::Pool,
            amount: migration.token_amount,
        },
    ]
}

/// What to move for a settled buy, in order.
pub fn buy_transfers(trade: &TradeReceipt) -> (r: [Transfer; 3])
    ensures
        r@ == buy_plan(*trade),
{
    [
        Transfer {
            asset: Asset::BaseCurrency,
            from: Party::Trader,
            to: Party::FeeRecipient,
            amount: trade.fee_amount,
        },
        Transfer {
            asset: Asset::BaseCurrency,
            from: Party::Trader,
            to: Party::Custody,
            amount: trade.net_amount,
        },
        Transfer {
            asset: Asset::Token,
            from: Party::Custody,
            to: Party::Trader,
            amount: trade.amount_out,
        },
    ]
}

/// What to move for a settled sell, in order.
pub fn sell_transfers(trade: &TradeReceipt) -> (r: [Transfer; 3])
    ensures
        r@ == sell_plan(*trade),
{
    [
        Transfer {
            asset: Asset::Token,
            from: Party::Trader,
            to: Party::Custody,
            amount: trade.amount_in,
        },
        Transfer {
            asset: Asset::BaseCurrency,
            from: Party::Custody,
            to: Party::Trader,
            amount: trade.net_amount,
        },
        Transfer {
            asset: Asset::BaseCurrency,
            from: Party::Custody,
            to: Party::FeeRecipient,
            amount: trade.fee_amount,
        },
    ]
}

/// What to move for a settled migration, in order.
pub fn migration_transfers(migration: &MigrationCompleted) -> (r: [Transfer; 3])
    ensures
        r@ == migration_plan(*migration),
{
    [
        Transfer {
            asset: Asset::BaseCurrency,
            from: Party::Custody,
            to: Party::FeeRecipient,
            amount: migration.migration_fee,
        },
        Transfer {
            asset: Asset::BaseCurrency,
            from: Party::Custody,
            to: Party::Pool,
            amount: migration.sol_amount,
        },
        Transfer {
            asset: Asset::Token,
            from: Party::Custody,
            to: Party::Pool,
            amount: migration.token_amount,
        },
    ]
}

/// What each party holds of each asset.
pub struct Balances {
    pub trader_sol: int,
    pub trader_token: int,
    pub custody_sol: int,
    pub custody_token: int,
    pub fee_recipient_sol: int,
    pub fee_recipient_token: int,
    pub pool_sol: int,
    pub pool_token: int,
}

impl Balances {
    /// What `party` holds of `asset`.
    pub open spec fn of(self, party: Party, asset: Asset) -> int {
        match (party, asset) {
            (Party::Trader, Asset::BaseCurrency) => self.trader_sol,
            (Party::Trader, Asset::Token) => self.trader_token,
            (Party::Custody, Asset::BaseCurrency) => self.custody_sol,
            (Party::Custody, Asset::Token) => self.custody_token,
            (Party::FeeRecipient, Asset::BaseCurrency) => self.fee_recipient_sol,
            (Party::FeeRecipient, Asset::Token) => self.fee_recipient_token,
            (Party::Pool, Asset::BaseCurrency) => self.pool_sol,
            (Party::Pool, Asset::Token) => self.pool_token,
        }
    }

    /// These balances with `party` holding `amount` of `asset`.
    pub open spec fn with(self, party: Party, asset: Asset, amount: int) -> Balances {
        match (party, asset) {
            (Party::Trader, Asset::BaseCurrency) => Balances { trader_sol: amount, ..self },
            (Party::Trader, Asset::Token) => Balances { trader_token: amount, ..self },
            (Party::Custody, Asset::BaseCurrency) => Balances { custody_sol: amount, ..self },
            (Party::Custody, Asset::Token) => Balances { custody_token: amount, ..self },
            (Party::FeeRecipient, Asset::BaseCurrency) => Balances {
                fee_recipient_sol: amount,
                ..self
            },
            (Party::FeeRecipient, Asset::Token) => Balances { fee_recipient_token: amount, ..self },
            (Party::Pool, Asset::BaseCurrency) => Balances { pool_sol: amount, ..self },
            (Party::Pool, Asset::Token) => Balances { pool_token: amount, ..self },
        }
    }

    /// All the base currency there is.
    pub open spec fn total_sol(self) -> int {
        self.trader_sol + self.custody_sol + self.fee_recipient_sol + self.pool_sol
    }

    /// All the tokens there are.
    pub open spec fn total_token(self) -> int {
        self.trader_token + self.custody_token + self.fee_recipient_token + self.pool_token
    }

    /// Whether nobody owes anything.
    pub open spec fn none_negative(self) -> bool {
        &&& self.trader_sol >= 0
        &&& self.trader_token >= 0
        &&& self.custody_sol >= 0
        &&& self.custody_token >= 0
        &&& self.fee_recipient_sol >= 0
        &&& self.fee_recipient_token >= 0
        &&& self.pool_sol >= 0
        &&& self.pool_token >= 0
    }

    /// The balances after one transfer, which is refused where the payer
    /// does not hold the amount.
    pub open spec fn after(self, transfer: Transfer) -> Option<Balances> {
        if self.of(transfer.from, transfer.asset) < transfer.amount {
            None
        } else {
            let paid = self.with(
                transfer.from,
                transfer.asset,
                self.of(transfer.from, transfer.asset) - transfer.amount,
            );
            Some(
                paid.with(
                    transfer.to,
                    transfer.asset,
                    paid.of(transfer.to, transfer.asset) + transfer.amount,
                ),
            )
        }
    }

    /// The balances after the transfers of `plan`, made in order; none where
    /// one of them is refused.
    pub open spec fn after_all(self, plan: Seq<Transfer>) -> Option<Balances>
        decreases plan.len(),
    {
        if plan.len() == 0 {
            Some(self)
        } else {
            match self.after(plan.first()) {
                None => None,
                Some(next) => next.after_all(plan.drop_first()),
            }
        }
    }
}

/// No transfer makes or loses anything, and none leaves anybody in debt.
pub proof fn lemma_transfer_conserves(balances: Balances, transfer: Transfer)
    requires
        balances.none_negative(),
        balances.after(transfer) is Some,
    ensures
        balances.after(transfer)->Some_0.total_sol() == balances.total_sol(),
        balances.after(transfer)->Some_0.total_token() == balances.total_token(),
        balances.after(transfer)->Some_0.none_negative(),
{
}

/// Neither does a run of transfers.
pub proof fn lemma_transfers_conserve(balances: Balances, plan: Seq<Transfer>)
    requires
        balances.none_negative(),
        balances.after_all(plan) is Some,
    ensures
        balances.after_all(plan)->Some_0.total_sol() == balances.total_sol(),
        balances.after_all(plan)->Some_0.total_token() == balances.total_token(),
        balances.after_all(plan)->Some_0.none_negative(),
    decreases plan.len(),
{
    if plan.len() > 0 {
        lemma_transfer_conserves(balances, plan.first());
        lemma_transfers_conserve(balances.after(plan.first())->Some_0, plan.drop_first());
    }
}

} // verus!
