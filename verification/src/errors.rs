use vstd::prelude::*;

verus! {

/// Every way a copy-trading operation can fail. A failure aborts the
/// enclosing ledger transaction, so no error leaves a partial write behind.
#[derive(Clone, Copy, Debug, PartialEq, Eq, Structural)]
pub enum CopyTradingError {
    /// A trader's display name is longer than the record allows.
    NameTooLong,
    /// The trade being mirrored names a trader other than the one the link
    /// is bound to.
    InvalidTrader,
    /// The follower's link is not active.
    InactiveCopyTrading,
    /// The source holding account does not cover the sized amount.
    InsufficientFunds,
    /// A statistics update could not be matched to a stored trader record.
    InvalidStatsUpdate,
}

} // verus!
