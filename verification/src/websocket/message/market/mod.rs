//! Messages of the market data feeds.

/// Streaming order book data.
pub mod orderbook;
/// Real-time ticker data.
pub mod ticker;
/// Streaming tick data of publicly executed trades.
pub mod trade;
