//! Data types for interacting with Kite Connect API.
//!
//! These models represent the structures used in API requests and responses.
//! [`KiteApiResponse`] is the wrapper every endpoint answers with; the generic
//! type is the data structure a specific endpoint returns.

use vstd::prelude::*;

pub mod exchange;
pub mod market;
pub mod order;
pub mod order_enums;
pub mod portfolio;
pub mod session;
pub mod user;

pub use exchange::Exchange;
pub use market::InstrumentType;
pub use market::QuoteMode;
pub use order::OrderReceipt;
pub use order_enums::OrderStatus;
pub use order_enums::OrderType;
pub use order_enums::OrderValidity;
pub use order_enums::OrderVariety;
pub use order_enums::ProductType;
pub use order_enums::TransactionType;
pub use portfolio::PositionConversionRequest;
pub use portfolio::PositionType;
pub use user::SegmentKind;
pub use user::UserProfile;

verus! {

/// The default response structure used by Kite Connect API: a status tag and,
/// depending on success, the returned data or an error message and label.
#[derive(Debug)]
pub struct KiteApiResponse<T> {
    /// The status of the API response: `success` or `error`.
    pub status: String,
    /// The actual data returned by the API, if any.
    pub data: Option<T>,
    /// An optional message with more information about the response.
    pub message: Option<String>,
    /// An optional error label, present if the response reports an error.
    pub error_type: Option<String>,
}

impl<T> KiteApiResponse<T> {
    /// Takes the returned data out of the response, leaving the rest behind.
    pub fn into_data(self) -> (d: Option<T>)
        ensures
            d == self.data,
    {
        self.data
    }
}

} // verus!
