//! Verified decision core of a grid trading bot: regime labels, risk gates,
//! consensus voting, session bookkeeping and the small data formats the bot
//! reads and writes.

pub mod regime;
pub mod window;
pub mod circuit_breaker;
pub mod stop_loss;
pub mod win_rate_guard;
pub mod level_analytics;
pub mod signal;
pub mod consensus;
pub mod wma;
pub mod cli;
pub mod session;
pub mod grid;
pub mod rpc;
pub mod keystore;
pub mod fee_filter;
pub mod arbitrage;
pub mod metrics;
pub mod volatility;
pub mod registry;
pub mod rules;
