use vstd::prelude::*;

use crate::errors::CopyTradingError;
use crate::identity::WalletAddress;

verus! {

/// Longest display name a trader record stores, in bytes.
pub const MAX_NAME_LENGTH: usize = 32;

/// Identity and performance record of one watched trader. The identity
/// fields are set once at creation; the statistics are overwritten as a
/// whole on every update.
#[derive(Clone, Debug, PartialEq, Eq)]
pub struct TraderProfile {
    /// Key of the record; immutable after creation.
    pub wallet_address: WalletAddress,
    /// Display name, at most `MAX_NAME_LENGTH` bytes; checked at creation
    /// only.
    pub name: Vec<u8>,
    /// Return on investment, in basis points (100 = 1%); may be negative.
    pub roi: i64,
    /// Profit and loss, in basis points; may be negative.
    pub pnl_percentage: i64,
    /// Cumulative invested amount, in the ledger's smallest currency unit.
    pub solana_invested: u64,
    pub total_trades: u32,
    pub successful_trades: u32,
    /// Ledger time the record was created; never touched again.
    pub creation_timestamp: i64,
    /// Ledger time of the latest statistics update.
    pub last_updated: i64,
    /// Never set by any operation in scope.
    pub is_verified: bool,
    /// Disambiguation byte of the record's derived address.
    pub bump: u8,
}

impl TraderProfile {
    /// The record's one internal bound: the stored name fits the record.
    pub open spec fn wf(self) -> bool {
        self.name@.len() <= MAX_NAME_LENGTH
    }
}

/// The record `add_trader` creates: the given identity and name, every
/// statistic at zero, unverified, both timestamps at the creation time.
pub open spec fn new_trader_profile(
    wallet_address: WalletAddress,
    name: Vec<u8>,
    now: i64,
    bump: u8,
) -> TraderProfile {
    TraderProfile {
        wallet_address,
        name,
        roi: 0,
        pnl_percentage: 0,
        solana_invested: 0,
        total_trades: 0,
        successful_trades: 0,
        creation_timestamp: now,
        last_updated: now,
        is_verified: false,
        bump,
    }
}

/// Creates the record for a newly watched trader, keyed by
/// `wallet_address` and stamped with the ledger time `now`. Succeeds
/// exactly when the name fits the record; the stored name then equals the
/// input exactly.
pub fn add_trader(
    wallet_address: WalletAddress,
    name: Vec<u8>,
    now: i64,
    bump: u8,
) -> (r: Result<TraderProfile, CopyTradingError>)
    ensures
        name@.len() <= MAX_NAME_LENGTH ==> r == Ok::<TraderProfile, CopyTradingError>(
            new_trader_profile(wallet_address, name, now, bump),
        ),
        name@.len() > MAX_NAME_LENGTH ==> r == Err::<TraderProfile, CopyTradingError>(
            CopyTradingError::NameTooLong,
        ),
        r matches Ok(p) ==> p.name@ == name@ && p.wf(),
{
    if name.len() > MAX_NAME_LENGTH {
        return Err(CopyTradingError::NameTooLong);
    }
    Ok(TraderProfile {
        wallet_address,
        name,
        roi: 0,
        pnl_percentage: 0,
        solana_invested: 0,
        total_trades: 0,
        successful_trades: 0,
        creation_timestamp: now,
        last_updated: now,
        is_verified: false,
        bump,
    })
}

/// `p` with all five statistic fields overwritten and `last_updated` moved
/// to `now`; identity, name, creation time and verification flag as in `p`.
pub open spec fn stats_updated(
    p: TraderProfile,
    roi: i64,
    pnl_percentage: i64,
    solana_invested: u64,
    total_trades: u32,
    successful_trades: u32,
    now: i64,
) -> TraderProfile {
    TraderProfile {
        wallet_address: p.wallet_address,
        name: p.name,
        roi,
        pnl_percentage,
        solana_invested,
        total_trades,
        successful_trades,
        creation_timestamp: p.creation_timestamp,
        last_updated: now,
        is_verified: p.is_verified,
        bump: p.bump,
    }
}

/// Overwrites all five statistic fields unconditionally and refreshes
/// `last_updated` to the ledger time `now`. No bounds are placed on the
/// statistics beyond their integer widths.
pub fn update_trader_stats(
    profile: &mut TraderProfile,
    roi: i64,
    pnl_percentage: i64,
    solana_invested: u64,
    total_trades: u32,
    successful_trades: u32,
    now: i64,
)
    ensures
        *final(profile) == stats_updated(
            *old(profile),
            roi,
            pnl_percentage,
            solana_invested,
            total_trades,
            successful_trades,
            now,
        ),
{
    profile.roi = roi;
    profile.pnl_percentage = pnl_percentage;
    profile.solana_invested = solana_invested;
    profile.total_trades = total_trades;
    profile.successful_trades = successful_trades;
    profile.last_updated = now;
}

/// A statistics update is idempotent under identical repeated input:
/// writing the same statistics again at a later time gives the record that
/// one write at the later time would give, so the two records agree on
/// every field but `last_updated`, which strictly increases.
pub proof fn lemma_update_trader_stats_idempotent(
    p: TraderProfile,
    roi: i64,
    pnl_percentage: i64,
    solana_invested: u64,
    total_trades: u32,
    successful_trades: u32,
    t1: i64,
    t2: i64,
)
    requires
        t1 < t2,
    ensures
        ({
            let once = stats_updated(
                p,
                roi,
                pnl_percentage,
                solana_invested,
                total_trades,
                successful_trades,
                t1,
            );
            let twice = stats_updated(
                once,
                roi,
                pnl_percentage,
                solana_invested,
                total_trades,
                successful_trades,
                t2,
            );
            twice == stats_updated(
                p,
                roi,
                pnl_percentage,
                solana_invested,
                total_trades,
                successful_trades,
                t2,
            ) && twice == (TraderProfile { last_updated: t2, ..once }) && twice.last_updated
                > once.last_updated
        }),
{
}

} // verus!
