//! Order acknowledgement types.

use vstd::prelude::*;

verus! {

/// The acknowledgement the Order Management System returns when an order is
/// successfully placed.
#[derive(Debug, Clone, PartialEq, Eq)]
pub struct OrderReceipt {
    /// The order id the API returns for a successfully placed order.
    pub order_id: String,
}

impl OrderReceipt {
    /// Builds a receipt from an order id.
    pub fn new(order_id: String) -> (r: OrderReceipt)
        ensures
            r.order_id@ == order_id@,
    {
        OrderReceipt { order_id }
    }
}

} // verus!
