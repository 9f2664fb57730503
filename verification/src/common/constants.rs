use vstd::prelude::*;

pub mod rate_limits;
pub mod timeouts;
pub mod topics;

verus! {

pub const DATA_TOPIC: &'static str = "data";

pub const TRADES_TOPIC: &'static str = "trades";

pub const ORDERS_TOPIC: &'static str = "orders";

pub const LOG_TOPIC: &'static str = "log";

pub const METRICS_TOPIC: &'static str = "metrics";

pub const AUDIT_TOPIC: &'static str = "audit";

} // verus!
