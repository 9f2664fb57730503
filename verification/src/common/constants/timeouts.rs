use vstd::prelude::*;

verus! {

pub const DEFAULT_TIMEOUT_MS: u64 = 5000;

pub const NETWORK_TIMEOUT_MS: u64 = 10000;

pub const ORDER_TIMEOUT_MS: u64 = 30000;

} // verus!
