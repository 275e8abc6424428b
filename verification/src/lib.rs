//! On-ledger core of a copy-trading service.
//!
//! The library tracks performance records for watched traders, holds each
//! follower's standing link to one trader, and decides how a triggering
//! trade is sized and in which direction funds move between the follower's
//! and the pool's holding accounts. Everything here is pure state-transition
//! and authorization logic; the host ledger (signature verification, record
//! allocation, the token-transfer primitive, the clock) stays outside and
//! hands these functions plain values.

pub mod config;
pub mod errors;
pub mod identity;
pub mod registry;
pub mod sizing;
pub mod trade;
pub mod trader;
