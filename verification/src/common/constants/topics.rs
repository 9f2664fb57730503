pub use super::{AUDIT_TOPIC, DATA_TOPIC, LOG_TOPIC, METRICS_TOPIC, ORDERS_TOPIC, TRADES_TOPIC};
