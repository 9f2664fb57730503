use vstd::prelude::*;

verus! {

pub const MAX_REQUESTS_PER_SECOND: u32 = 10;

pub const MAX_ORDERS_PER_SECOND: u32 = 5;

} // verus!
