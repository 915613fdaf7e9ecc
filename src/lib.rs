//! Verified core of a trading-rule optimiser: how a bar series is cut into
//! training and validation ranges, how a chromosome of random keys decodes into
//! integer parameters, the per-bar decision policy of a backtest, the rolling
//! window behind the moving averages, and the population bookkeeping of a
//! biased random-key genetic algorithm.
pub mod utils;
pub mod backtest;
pub mod chromosome;
pub mod brkga;
pub mod indicators;
