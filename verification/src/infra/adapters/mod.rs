pub mod coinbase;
pub mod exchange;
pub mod json;
pub mod kraken;
