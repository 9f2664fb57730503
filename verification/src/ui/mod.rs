pub mod console;
pub mod lifecycle;
pub mod logger;
pub mod metrics;
