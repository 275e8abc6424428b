use vstd::prelude::*;

use crate::config::{CopyTrading, TradeSide};
use crate::errors::CopyTradingError;
use crate::identity::WalletAddress;
use crate::sizing::{trade_size, trade_size_spec};

verus! {

/// The two holding accounts a copy trade moves funds between: the
/// follower's own account and the pool's. Balances are in the ledger's
/// smallest currency unit.
#[derive(Clone, Copy, Debug, PartialEq, Eq, Structural)]
pub struct Holdings {
    pub follower: u64,
    pub pool: u64,
}

impl Holdings {
    /// Both balances belong to one asset, whose total supply fits 64 bits,
    /// so their sum does too. A transfer moves value between the two
    /// accounts and keeps the sum, so this is an invariant of every
    /// operation here.
    pub open spec fn wf(self) -> bool {
        self.follower + self.pool <= u64::MAX
    }

    /// The account a trade in direction `side` draws from.
    pub open spec fn source_balance(self, side: TradeSide) -> u64 {
        match side {
            TradeSide::Buy => self.follower,
            TradeSide::Sell => self.pool,
        }
    }

    /// The holdings after `amount` moved in direction `side`.
    pub open spec fn after_transfer(self, side: TradeSide, amount: int) -> Holdings {
        match side {
            TradeSide::Buy => Holdings {
                follower: (self.follower - amount) as u64,
                pool: (self.pool + amount) as u64,
            },
            TradeSide::Sell => Holdings {
                follower: (self.follower + amount) as u64,
                pool: (self.pool - amount) as u64,
            },
        }
    }
}

/// Moves `amount` from the follower's holding account into the pool, or
/// fails without touching either balance when the follower cannot cover it.
pub fn execute_buy(holdings: &mut Holdings, amount: u64) -> (r: Result<(), CopyTradingError>)
    requires
        old(holdings).wf(),
    ensures
        final(holdings).wf(),
        amount <= old(holdings).follower ==> r == Ok::<(), CopyTradingError>(())
            && *final(holdings) == old(holdings).after_transfer(TradeSide::Buy, amount as int),
        amount > old(holdings).follower ==> r == Err::<(), CopyTradingError>(
            CopyTradingError::InsufficientFunds,
        ) && *final(holdings) == *old(holdings),
{
    if amount <= holdings.follower {
        holdings.follower = holdings.follower - amount;
        holdings.pool = holdings.pool + amount;
        Ok(())
    } else {
        Err(CopyTradingError::InsufficientFunds)
    }
}

/// Moves `amount` from the pool back to the follower's holding account, or
/// fails without touching either balance when the pool cannot cover it.
pub fn execute_sell(holdings: &mut Holdings, amount: u64) -> (r: Result<(), CopyTradingError>)
    requires
        old(holdings).wf(),
    ensures
        final(holdings).wf(),
        amount <= old(holdings).pool ==> r == Ok::<(), CopyTradingError>(())
            && *final(holdings) == old(holdings).after_transfer(TradeSide::Sell, amount as int),
        amount > old(holdings).pool ==> r == Err::<(), CopyTradingError>(
            CopyTradingError::InsufficientFunds,
        ) && *final(holdings) == *old(holdings),
{
    if amount <= holdings.pool {
        holdings.pool = holdings.pool - amount;
        holdings.follower = holdings.follower + amount;
        Ok(())
    } else {
        Err(CopyTradingError::InsufficientFunds)
    }
}

/// Mirrors one triggering trade over a follower's link.
///
/// The caller-supplied `trader` identity must be the one the link is bound
/// to, and the link must be active; only then is the triggering `amount`
/// sized under the link's strategy and moved in direction `side`. Every
/// failure leaves the holdings exactly as they were.
pub fn execute_copy_trade(
    link: &CopyTrading,
    holdings: &mut Holdings,
    amount: u64,
    side: TradeSide,
    trader: WalletAddress,
) -> (r: Result<(), CopyTradingError>)
    requires
        old(holdings).wf(),
    ensures
        final(holdings).wf(),
        link.trader != trader ==> r == Err::<(), CopyTradingError>(
            CopyTradingError::InvalidTrader,
        ) && *final(holdings) == *old(holdings),
        link.trader == trader && !link.is_active ==> r == Err::<(), CopyTradingError>(
            CopyTradingError::InactiveCopyTrading,
        ) && *final(holdings) == *old(holdings),
        link.trader == trader && link.is_active ==> (trade_size_spec(
            amount,
            link.config.strategy,
        ) <= old(holdings).source_balance(side) ==> r == Ok::<(), CopyTradingError>(())
            && *final(holdings) == old(holdings).after_transfer(
            side,
            trade_size_spec(amount, link.config.strategy),
        )),
        link.trader == trader && link.is_active ==> (trade_size_spec(
            amount,
            link.config.strategy,
        ) > old(holdings).source_balance(side) ==> r == Err::<(), CopyTradingError>(
            CopyTradingError::InsufficientFunds,
        ) && *final(holdings) == *old(holdings)),
{
    if link.trader != trader {
        return Err(CopyTradingError::InvalidTrader);
    }
    if !link.is_active {
        return Err(CopyTradingError::InactiveCopyTrading);
    }
    let sized: u64 = trade_size(amount, link.config.strategy);
    match side {
        TradeSide::Buy => execute_buy(holdings, sized),
        TradeSide::Sell => execute_sell(holdings, sized),
    }
}

} // verus!
