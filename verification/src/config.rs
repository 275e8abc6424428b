use vstd::prelude::*;

use crate::identity::WalletAddress;

verus! {

/// How a follower's order is sized from a trader's triggering amount.
///
/// A percentage is held in basis points (100 = 1%), so fractional
/// percentages stay exact and no floating-point drift reaches the sizing
/// arithmetic. Being unsigned, the scale cannot be negative.
#[derive(Clone, Copy, Debug, PartialEq, Eq, Structural)]
pub enum CopyStrategy {
    /// Copy the triggering amount verbatim.
    ExactAmount,
    /// Scale the triggering amount by this many basis points.
    Percentage(u64),
}

impl Default for CopyStrategy {
    fn default() -> (r: Self)
        ensures
            r == CopyStrategy::ExactAmount,
    {
        CopyStrategy::ExactAmount
    }
}

/// Direction of a mirrored trade, seen from the follower.
#[derive(Clone, Copy, Debug, PartialEq, Eq, Structural)]
pub enum TradeSide {
    /// Funds move from the follower's holding account into the pool.
    Buy,
    /// Funds move from the pool back to the follower's holding account.
    Sell,
}

/// Strategy and risk parameters a follower stores on a link.
///
/// Only `strategy` is read by trade execution; the remaining fields are
/// persisted risk parameters whose enforcement sits with the caller.
#[derive(Clone, Copy, Debug, PartialEq, Eq, Structural)]
pub struct CopyTradingConfig {
    pub strategy: CopyStrategy,
    pub min_order_size: u64,
    pub total_allocation: u64,
    pub stop_loss_percentage: u16,
    pub priority_fee: u64,
}

impl Default for CopyTradingConfig {
    fn default() -> (r: Self)
        ensures
            r.strategy == CopyStrategy::ExactAmount,
            r.min_order_size == 0,
            r.total_allocation == 0,
            r.stop_loss_percentage == 0,
            r.priority_fee == 0,
    {
        CopyTradingConfig {
            strategy: CopyStrategy::ExactAmount,
            min_order_size: 0,
            total_allocation: 0,
            stop_loss_percentage: 0,
            priority_fee: 0,
        }
    }
}

/// A follower's standing link to one watched trader: which trader is
/// mirrored, under which parameters, and whether mirroring is live.
#[derive(Clone, Copy, Debug, PartialEq, Eq, Structural)]
pub struct CopyTrading {
    /// Identity of the trader being followed; immutable after creation.
    pub trader: WalletAddress,
    pub config: CopyTradingConfig,
    /// Gate on trade execution; no operation in scope turns it off again.
    pub is_active: bool,
    /// Disambiguation byte of the record's derived address.
    pub bump: u8,
}

/// Opens a follower's link to `trader`. The link starts active
/// unconditionally; whether a trader record exists for `trader` is not
/// checked here, matching the loose coupling of the records.
pub fn initialize_copy_trading(
    trader: WalletAddress,
    config: CopyTradingConfig,
    bump: u8,
) -> (r: CopyTrading)
    ensures
        r.trader == trader,
        r.config == config,
        r.is_active,
        r.bump == bump,
{
    CopyTrading { trader, config, is_active: true, bump }
}

/// Replaces the whole parameter bundle of a link; the bound trader, the
/// active flag and the address byte stay as they were.
pub fn update_config(link: &mut CopyTrading, new_config: CopyTradingConfig)
    ensures
        final(link).config == new_config,
        final(link).trader == old(link).trader,
        final(link).is_active == old(link).is_active,
        final(link).bump == old(link).bump,
{
    link.config = new_config;
}

} // verus!
