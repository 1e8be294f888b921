//! Messages of the feeds that report on the account.

/// Real-time status of user balance changes.
pub mod balance;
/// Provides updates for order changes.
pub mod order;
/// Receive updates regarding post-trade settlement details.
pub mod post_trade_settlement;
