pub mod adapters;
pub mod broker_adapters;
pub mod event_bus;
pub mod execution;
