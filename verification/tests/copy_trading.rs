use copy_trading::config::{
    initialize_copy_trading, update_config, CopyStrategy, CopyTradingConfig, TradeSide,
};
use copy_trading::errors::CopyTradingError;
use copy_trading::identity::WalletAddress;
use copy_trading::registry::TraderRegistry;
use copy_trading::sizing::trade_size;
use copy_trading::trade::{execute_buy, execute_copy_trade, execute_sell, Holdings};
use copy_trading::trader::{add_trader, update_trader_stats};

fn wallet(tag: u128) -> WalletAddress {
    WalletAddress { hi: tag, lo: tag.wrapping_mul(7) }
}

fn percentage_config(bps: u64) -> CopyTradingConfig {
    CopyTradingConfig {
        strategy: CopyStrategy::Percentage(bps),
        min_order_size: 1,
        total_allocation: 1_000_000,
        stop_loss_percentage: 500,
        priority_fee: 5,
    }
}

#[test]
fn add_trader_accepts_name_at_limit() {
    let name = vec![b'a'; 32];
    let profile = add_trader(wallet(1), name.clone(), 77, 255).unwrap();
    assert_eq!(profile.wallet_address, wallet(1));
    assert_eq!(profile.name, name);
    assert_eq!(profile.roi, 0);
    assert_eq!(profile.pnl_percentage, 0);
    assert_eq!(profile.solana_invested, 0);
    assert_eq!(profile.total_trades, 0);
    assert_eq!(profile.successful_trades, 0);
    assert_eq!(profile.creation_timestamp, 77);
    assert_eq!(profile.last_updated, 77);
    assert!(!profile.is_verified);
    assert_eq!(profile.bump, 255);
}

#[test]
fn add_trader_rejects_name_over_limit() {
    let name = vec![b'a'; 33];
    assert_eq!(add_trader(wallet(1), name, 77, 0), Err(CopyTradingError::NameTooLong));
}

#[test]
fn registry_rejects_long_name_and_stores_nothing() {
    let mut registry = TraderRegistry::new();
    let r = registry.add_trader(wallet(2), vec![b'x'; 33], 10, 0);
    assert_eq!(r, Err(CopyTradingError::NameTooLong));
    assert_eq!(registry.len(), 0);
    assert!(registry.get_profile(wallet(2)).is_none());
}

#[test]
fn registry_stores_name_exactly() {
    let mut registry = TraderRegistry::new();
    let name = b"Alice".to_vec();
    assert_eq!(registry.add_trader(wallet(3), name.clone(), 10, 1), Ok(()));
    assert_eq!(registry.len(), 1);
    let stored = registry.get_profile(wallet(3)).unwrap();
    assert_eq!(stored.name, name);
    assert_eq!(stored.creation_timestamp, 10);
}

#[test]
fn update_trader_stats_overwrites_all_statistics() {
    let mut profile = add_trader(wallet(4), b"Bob".to_vec(), 5, 0).unwrap();
    update_trader_stats(&mut profile, -250, 1300, 42_000, 9, 6, 6);
    assert_eq!(profile.roi, -250);
    assert_eq!(profile.pnl_percentage, 1300);
    assert_eq!(profile.solana_invested, 42_000);
    assert_eq!(profile.total_trades, 9);
    assert_eq!(profile.successful_trades, 6);
    assert_eq!(profile.creation_timestamp, 5);
    assert_eq!(profile.last_updated, 6);
    assert_eq!(profile.wallet_address, wallet(4));
}

#[test]
fn update_trader_stats_is_idempotent_but_for_the_timestamp() {
    let mut once = add_trader(wallet(5), b"Carol".to_vec(), 1, 0).unwrap();
    let mut twice = once.clone();
    update_trader_stats(&mut once, 700, -80, 999, 4, 2, 50);
    update_trader_stats(&mut twice, 700, -80, 999, 4, 2, 20);
    let earlier: i64 = twice.last_updated;
    update_trader_stats(&mut twice, 700, -80, 999, 4, 2, 50);
    assert!(twice.last_updated > earlier);
    assert_eq!(once, twice);
}

#[test]
fn registry_updates_only_the_matching_record() {
    let mut registry = TraderRegistry::new();
    registry.add_trader(wallet(6), b"Dan".to_vec(), 1, 0).unwrap();
    registry.add_trader(wallet(7), b"Eve".to_vec(), 2, 0).unwrap();
    let r = registry.update_trader_stats(wallet(7), 100, 200, 300, 4, 3, 9);
    assert_eq!(r, Ok(()));
    let untouched = registry.get_profile(wallet(6)).unwrap();
    assert_eq!(untouched.roi, 0);
    assert_eq!(untouched.last_updated, 1);
    let updated = registry.get_profile(wallet(7)).unwrap();
    assert_eq!(updated.roi, 100);
    assert_eq!(updated.pnl_percentage, 200);
    assert_eq!(updated.solana_invested, 300);
    assert_eq!(updated.total_trades, 4);
    assert_eq!(updated.successful_trades, 3);
    assert_eq!(updated.last_updated, 9);
}

#[test]
fn registry_rejects_update_for_unknown_wallet() {
    let mut registry = TraderRegistry::new();
    registry.add_trader(wallet(8), b"Frank".to_vec(), 1, 0).unwrap();
    let r = registry.update_trader_stats(wallet(9), 1, 1, 1, 1, 1, 2);
    assert_eq!(r, Err(CopyTradingError::InvalidStatsUpdate));
    assert_eq!(registry.get_profile(wallet(8)).unwrap().roi, 0);
}

#[test]
fn trade_size_exact_amount_copies_verbatim() {
    assert_eq!(trade_size(100, CopyStrategy::ExactAmount), 100);
}

#[test]
fn trade_size_half_percentage() {
    assert_eq!(trade_size(200, CopyStrategy::Percentage(5000)), 100);
}

#[test]
fn trade_size_truncates_toward_zero() {
    assert_eq!(trade_size(3, CopyStrategy::Percentage(3300)), 0);
}

#[test]
fn trade_size_saturates_at_the_limit() {
    assert_eq!(trade_size(u64::MAX, CopyStrategy::Percentage(20000)), u64::MAX);
}

#[test]
fn default_strategy_is_exact_amount() {
    assert_eq!(CopyStrategy::default(), CopyStrategy::ExactAmount);
    let config = CopyTradingConfig::default();
    assert_eq!(config.strategy, CopyStrategy::ExactAmount);
    assert_eq!(config.min_order_size, 0);
    assert_eq!(config.total_allocation, 0);
    assert_eq!(config.stop_loss_percentage, 0);
    assert_eq!(config.priority_fee, 0);
}

#[test]
fn initialize_copy_trading_starts_active() {
    let link = initialize_copy_trading(wallet(10), percentage_config(1000), 3);
    assert!(link.is_active);
    assert_eq!(link.trader, wallet(10));
    assert_eq!(link.config, percentage_config(1000));
    assert_eq!(link.bump, 3);
}

#[test]
fn update_config_replaces_only_the_bundle() {
    let mut link = initialize_copy_trading(wallet(11), percentage_config(1000), 3);
    let new_config = CopyTradingConfig {
        strategy: CopyStrategy::ExactAmount,
        min_order_size: 9,
        total_allocation: 8,
        stop_loss_percentage: 7,
        priority_fee: 6,
    };
    update_config(&mut link, new_config);
    assert_eq!(link.config, new_config);
    assert_eq!(link.trader, wallet(11));
    assert!(link.is_active);
    assert_eq!(link.bump, 3);
}

#[test]
fn execute_buy_moves_funds_to_the_pool() {
    let mut holdings = Holdings { follower: 500, pool: 20 };
    assert_eq!(execute_buy(&mut holdings, 200), Ok(()));
    assert_eq!(holdings, Holdings { follower: 300, pool: 220 });
}

#[test]
fn execute_sell_moves_funds_to_the_follower() {
    let mut holdings = Holdings { follower: 500, pool: 20 };
    assert_eq!(execute_sell(&mut holdings, 20), Ok(()));
    assert_eq!(holdings, Holdings { follower: 520, pool: 0 });
}

#[test]
fn execute_buy_reports_insufficient_funds() {
    let mut holdings = Holdings { follower: 50, pool: 0 };
    assert_eq!(execute_buy(&mut holdings, 100), Err(CopyTradingError::InsufficientFunds));
    assert_eq!(holdings, Holdings { follower: 50, pool: 0 });
}

#[test]
fn copy_trade_rejects_wrong_trader_whatever_the_state() {
    let mut holdings = Holdings { follower: 10_000, pool: 10_000 };
    let active = initialize_copy_trading(wallet(12), percentage_config(1000), 0);
    let r = execute_copy_trade(&active, &mut holdings, 500, TradeSide::Buy, wallet(13));
    assert_eq!(r, Err(CopyTradingError::InvalidTrader));
    assert_eq!(holdings, Holdings { follower: 10_000, pool: 10_000 });

    let mut inactive = active;
    inactive.is_active = false;
    let r = execute_copy_trade(&inactive, &mut holdings, 500, TradeSide::Sell, wallet(13));
    assert_eq!(r, Err(CopyTradingError::InvalidTrader));
    assert_eq!(holdings, Holdings { follower: 10_000, pool: 10_000 });
}

#[test]
fn copy_trade_rejects_inactive_link_despite_funds() {
    let mut holdings = Holdings { follower: 10_000, pool: 10_000 };
    let mut link = initialize_copy_trading(wallet(14), percentage_config(1000), 0);
    link.is_active = false;
    let r = execute_copy_trade(&link, &mut holdings, 500, TradeSide::Buy, wallet(14));
    assert_eq!(r, Err(CopyTradingError::InactiveCopyTrading));
    assert_eq!(holdings, Holdings { follower: 10_000, pool: 10_000 });
}

#[test]
fn copy_trade_propagates_insufficient_funds() {
    let mut holdings = Holdings { follower: 99, pool: 0 };
    let mut config = percentage_config(0);
    config.strategy = CopyStrategy::ExactAmount;
    let link = initialize_copy_trading(wallet(15), config, 0);
    let r = execute_copy_trade(&link, &mut holdings, 100, TradeSide::Buy, wallet(15));
    assert_eq!(r, Err(CopyTradingError::InsufficientFunds));
    assert_eq!(holdings, Holdings { follower: 99, pool: 0 });
}

#[test]
fn end_to_end_copy_trading_scenario() {
    let trader_w = wallet(16);

    let mut registry = TraderRegistry::new();
    assert_eq!(registry.add_trader(trader_w, b"Alice".to_vec(), 100, 254), Ok(()));
    let profile = registry.get_profile(trader_w).unwrap();
    assert_eq!(profile.name, b"Alice".to_vec());
    assert_eq!(profile.roi, 0);
    assert_eq!(profile.total_trades, 0);

    let link = initialize_copy_trading(trader_w, percentage_config(1000), 0);
    assert!(link.is_active);

    let mut holdings = Holdings { follower: 5_000, pool: 1_000 };
    let r = execute_copy_trade(&link, &mut holdings, 1_000, TradeSide::Buy, trader_w);
    assert_eq!(r, Ok(()));
    assert_eq!(holdings, Holdings { follower: 4_900, pool: 1_100 });

    let other = wallet(17);
    let r = execute_copy_trade(&link, &mut holdings, 1_000, TradeSide::Buy, other);
    assert_eq!(r, Err(CopyTradingError::InvalidTrader));
    assert_eq!(holdings, Holdings { follower: 4_900, pool: 1_100 });
}
