pub mod arbitrage;
pub mod base;
pub mod mean_reversion;
