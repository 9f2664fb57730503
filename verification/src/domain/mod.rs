pub mod events;
pub mod models;
pub mod strategies;
