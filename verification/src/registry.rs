use vstd::prelude::*;

use crate::errors::CopyTradingError;
use crate::identity::WalletAddress;
use crate::trader::{add_trader, stats_updated, update_trader_stats, TraderProfile, MAX_NAME_LENGTH};

verus! {

/// The address-keyed store of trader records: one record per watched
/// wallet, created once and updated in place. It stands for the ledger's
/// account storage, where each record sits at an address derived from the
/// trader's wallet.
pub struct TraderRegistry {
    profiles: Vec<TraderProfile>,
}

impl View for TraderRegistry {
    type V = Seq<TraderProfile>;

    closed spec fn view(&self) -> Seq<TraderProfile> {
        self.profiles@
    }
}

impl TraderRegistry {
    /// Wallet addresses key the store, so no two records share one.
    pub open spec fn wf(self) -> bool {
        forall|i: int, j: int|
            0 <= i < j < self@.len() ==> self@[i].wallet_address != self@[j].wallet_address
    }

    /// Whether a record for `w` exists.
    pub open spec fn contains_wallet(self, w: WalletAddress) -> bool {
        exists|i: int| 0 <= i < self@.len() && self@[i].wallet_address == w
    }

    /// Position of the record for `w`; meaningful only when one exists.
    pub open spec fn index_of_wallet(self, w: WalletAddress) -> int {
        choose|i: int| 0 <= i < self@.len() && self@[i].wallet_address == w
    }

    /// The record stored for `w`; meaningful only when one exists.
    pub open spec fn profile_of(self, w: WalletAddress) -> TraderProfile {
        self@[self.index_of_wallet(w)]
    }

    /// An empty store.
    pub fn new() -> (r: TraderRegistry)
        ensures
            r@ == Seq::<TraderProfile>::empty(),
            r.wf(),
    {
        TraderRegistry { profiles: Vec::new() }
    }

    fn find_index(&self, w: WalletAddress) -> (r: Option<usize>)
        ensures
            match r {
                Some(i) => 0 <= i < self@.len() && self@[i as int].wallet_address == w,
                None => !self.contains_wallet(w),
            },
    {
        let mut i: usize = 0;
        while i < self.profiles.len()
            invariant
                i <= self.profiles.len(),
                forall|j: int| 0 <= j < i ==> self.profiles@[j].wallet_address != w,
            decreases self.profiles.len() - i,
        {
            if self.profiles[i].wallet_address == w {
                return Some(i);
            }
            i = i + 1;
        }
        None
    }

    /// Registers a new watched trader under `wallet_address`, stamped with
    /// the ledger time `now`. Succeeds exactly when the name fits the
    /// record, and then appends the fresh record; a name one byte too long
    /// fails and leaves no record behind. The storage layer guarantees
    /// create-once per wallet, so a record for `wallet_address` must not
    /// exist yet.
    pub fn add_trader(
        &mut self,
        wallet_address: WalletAddress,
        name: Vec<u8>,
        now: i64,
        bump: u8,
    ) -> (r: Result<(), CopyTradingError>)
        requires
            old(self).wf(),
            !old(self).contains_wallet(wallet_address),
        ensures
            final(self).wf(),
            name@.len() <= MAX_NAME_LENGTH ==> r == Ok::<(), CopyTradingError>(())
                && final(self)@ == old(self)@.push(
                crate::trader::new_trader_profile(wallet_address, name, now, bump),
            ),
            name@.len() > MAX_NAME_LENGTH ==> r == Err::<(), CopyTradingError>(
                CopyTradingError::NameTooLong,
            ) && final(self)@ == old(self)@,
    {
        match add_trader(wallet_address, name, now, bump) {
            Ok(profile) => {
                proof {
                    assert(profile.wallet_address == wallet_address);
                }
                self.profiles.push(profile);
                assert forall|i: int, j: int| 0 <= i < j < self@.len() implies self@[
                    i
                ].wallet_address != self@[j].wallet_address by {
                    if j == self@.len() - 1 {
                        assert(self@[i] == old(self)@[i]);
                        assert(!(0 <= i < old(self)@.len() && old(self)@[i].wallet_address
                            == wallet_address));
                    } else {
                        assert(self@[i] == old(self)@[i]);
                        assert(self@[j] == old(self)@[j]);
                    }
                }
                Ok(())
            },
            Err(e) => Err(e),
        }
    }

    /// Overwrites the statistics of the record for `wallet_address` and
    /// refreshes its `last_updated` to `now`; every other record stays as
    /// it was. When no record can be matched to `wallet_address`, the
    /// update cannot be validated against a stored binding and fails with
    /// `InvalidStatsUpdate`, touching nothing.
    pub fn update_trader_stats(
        &mut self,
        wallet_address: WalletAddress,
        roi: i64,
        pnl_percentage: i64,
        solana_invested: u64,
        total_trades: u32,
        successful_trades: u32,
        now: i64,
    ) -> (r: Result<(), CopyTradingError>)
        requires
            old(self).wf(),
        ensures
            final(self).wf(),
            old(self).contains_wallet(wallet_address) ==> r == Ok::<(), CopyTradingError>(())
                && final(self)@ == old(self)@.update(
                old(self).index_of_wallet(wallet_address),
                stats_updated(
                    old(self).profile_of(wallet_address),
                    roi,
                    pnl_percentage,
                    solana_invested,
                    total_trades,
                    successful_trades,
                    now,
                ),
            ),
            !old(self).contains_wallet(wallet_address) ==> r == Err::<(), CopyTradingError>(
                CopyTradingError::InvalidStatsUpdate,
            ) && final(self)@ == old(self)@,
    {
        match self.find_index(wallet_address) {
            Some(i) => {
                proof {
                    let k = old(self).index_of_wallet(wallet_address);
                    assert(0 <= k < old(self)@.len() && old(self)@[k].wallet_address
                        == wallet_address);
                    assert(k == i as int);
                }
                let mut profile = self.profiles.remove(i);
                update_trader_stats(
                    &mut profile,
                    roi,
                    pnl_percentage,
                    solana_invested,
                    total_trades,
                    successful_trades,
                    now,
                );
                self.profiles.insert(i, profile);
                proof {
                    assert(self@ =~= old(self)@.update(
                        i as int,
                        stats_updated(
                            old(self)@[i as int],
                            roi,
                            pnl_percentage,
                            solana_invested,
                            total_trades,
                            successful_trades,
                            now,
                        ),
                    ));
                }
                Ok(())
            },
            None => Err(CopyTradingError::InvalidStatsUpdate),
        }
    }

    /// The stored record for `wallet_address`, if one exists.
    pub fn get_profile(&self, wallet_address: WalletAddress) -> (r: Option<&TraderProfile>)
        requires
            self.wf(),
        ensures
            match r {
                Some(p) => self.contains_wallet(wallet_address) && *p == self.profile_of(
                    wallet_address,
                ),
                None => !self.contains_wallet(wallet_address),
            },
    {
        match self.find_index(wallet_address) {
            Some(i) => {
                proof {
                    let k = self.index_of_wallet(wallet_address);
                    assert(0 <= k < self@.len() && self@[k].wallet_address == wallet_address);
                    assert(k == i as int);
                }
                Some(&self.profiles[i])
            },
            None => None,
        }
    }

    /// How many traders are watched.
    pub fn len(&self) -> (r: usize)
        ensures
            r == self@.len(),
    {
        self.profiles.len()
    }
}

} // verus!
