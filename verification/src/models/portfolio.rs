//! Position related types.

use vstd::prelude::*;

use crate::models::exchange::Exchange;
use crate::models::order_enums::ProductType;
use crate::models::order_enums::TransactionType;

verus! {

/// The kind of a position.
#[derive(Debug, Clone, Copy, PartialEq, Eq, Structural)]
pub enum PositionType {
    /// Overnight position.
    Overnight,
    /// Day position.
    Day,
}

/// The label of each position type.
pub open spec fn spec_position_type_label(p: PositionType) -> Seq<char> {
    match p {
        PositionType::Overnight => "overnight"@,
        PositionType::Day => "day"@,
    }
}

impl PositionType {
    /// The label of this position type.
    pub fn label(&self) -> (t: &'static str)
        ensures
            t@ == spec_position_type_label(*self),
    {
        match self {
            PositionType::Overnight => "overnight",
            PositionType::Day => "day",
        }
    }
}

/// The request parameters for converting a position's margin product.
#[derive(Debug, Clone)]
pub struct PositionConversionRequest {
    /// Trading symbol of the instrument.
    pub tradingsymbol: String,
    /// Name of the exchange.
    pub exchange: Exchange,
    /// Transaction direction.
    pub transaction_type: TransactionType,
    /// Position type: overnight or day.
    pub position_type: PositionType,
    /// Quantity to convert.
    pub quantity: i32,
    /// Existing margin product of the position.
    pub old_product: ProductType,
    /// Margin product to convert to.
    pub new_product: ProductType,
}

} // verus!
