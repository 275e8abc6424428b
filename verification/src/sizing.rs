use vstd::prelude::*;

use crate::config::CopyStrategy;

verus! {

/// Basis points in one whole: a `Percentage` strategy scales by
/// `bps / BPS_DENOMINATOR`.
pub const BPS_DENOMINATOR: u64 = 10_000;

/// The amount a follower's order takes when `amount` triggered a trade
/// under `strategy`: the amount itself, or its share in basis points,
/// truncated toward zero and saturated at the 64-bit limit.
pub open spec fn trade_size_spec(amount: u64, strategy: CopyStrategy) -> int {
    match strategy {
        CopyStrategy::ExactAmount => amount as int,
        CopyStrategy::Percentage(bps) => {
            let scaled = (amount as int) * (bps as int) / (BPS_DENOMINATOR as int);
            if scaled > u64::MAX as int {
                u64::MAX as int
            } else {
                scaled
            }
        },
    }
}

/// Maps a triggering amount and a sizing strategy to the executed amount.
pub fn trade_size(amount: u64, strategy: CopyStrategy) -> (r: u64)
    ensures
        r == trade_size_spec(amount, strategy),
{
    match strategy {
        CopyStrategy::ExactAmount => amount,
        CopyStrategy::Percentage(bps) => {
            proof {
                assert((amount as int) * (bps as int) <= u128::MAX as int) by (nonlinear_arith)
                    requires
                        amount <= u64::MAX,
                        bps <= u64::MAX,
                ;
            }
            let scaled: u128 = (amount as u128) * (bps as u128) / (BPS_DENOMINATOR as u128);
            if scaled > u64::MAX as u128 {
                u64::MAX
            } else {
                scaled as u64
            }
        },
    }
}

} // verus!
