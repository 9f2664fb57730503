pub mod base;
pub mod interactive_broker_adapter;
