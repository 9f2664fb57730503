//! Core library of the trading platform: configuration, domain models,
//! strategies, adapters and subscribers, with their decisions verified.

pub mod common;
pub mod config;
pub mod domain;
pub mod infra;
pub mod platform;
pub mod ui;

pub use common::enums::{BrokerName, ExchangeName, OrderType, StrategyName, TradeSide};
pub use common::types::{Error, Result};
