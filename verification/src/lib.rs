pub mod accounts;
pub mod codec;
pub mod order;
pub mod pipeline;

use vstd::prelude::*;

verus! {

/// Parameters of a single maker order, decoded from the raw instruction
/// payload.
#[derive(Clone, Copy, Debug, PartialEq, Eq, Structural)]
pub struct BulkOrderParams {
    pub market_index: u64,
    pub order_type: u8,
    pub direction: u8,
    pub base_asset_amount: u64,
    pub price: u64,
}

/// Sum of two words; the caller rules out overflow.
pub fn add(left: u64, right: u64) -> (r: u64)
    requires
        left + right <= u64::MAX,
    ensures
        r == left + right,
{
    left + right
}

} // verus!
