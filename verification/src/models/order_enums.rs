//! Order related enums: variety, status, type, product, validity and
//! transaction direction, each with the fixed label the API uses for it.

use vstd::prelude::*;

verus! {

/// The variety of an order.
#[derive(Debug, Clone, Copy, PartialEq, Eq, Structural)]
pub enum OrderVariety {
    /// Regular order.
    Regular,
    /// After Market Order.
    AfterMarket,
    /// Cover Order.
    Cover,
    /// Iceberg Order.
    Iceberg,
    /// Auction Order.
    Auction,
}

/// The label of each order variety, used for routing order placement to its
/// API endpoint.
pub open spec fn spec_order_variety_label(v: OrderVariety) -> Seq<char> {
    match v {
        OrderVariety::Regular => "regular"@,
        OrderVariety::AfterMarket => "amo"@,
        OrderVariety::Cover => "co"@,
        OrderVariety::Iceberg => "iceberg"@,
        OrderVariety::Auction => "auction"@,
    }
}

impl OrderVariety {
    /// The label of this variety.
    pub fn label(&self) -> (t: &'static str)
        ensures
            t@ == spec_order_variety_label(*self),
    {
        match self {
            OrderVariety::Regular => "regular",
            OrderVariety::AfterMarket => "amo",
            OrderVariety::Cover => "co",
            OrderVariety::Iceberg => "iceberg",
            OrderVariety::Auction => "auction",
        }
    }
}

/// The statuses an order passes through during its lifecycle. The most common
/// end states are open, complete, cancelled and rejected; the others are
/// interim statuses around validation, registration and modification.
#[derive(Debug, Clone, Copy, PartialEq, Eq, Structural)]
pub enum OrderStatus {
    /// The order has been placed and is currently open.
    Open,
    /// The order has been completely filled.
    Complete,
    /// The order has been cancelled.
    Cancelled,
    /// The order has been rejected.
    Rejected,
    /// Order request has been received by the backend.
    PutOrderReqReceived,
    /// Order pending validation by the Risk Management System.
    ValidationPending,
    /// Order is pending registration at the exchange.
    OpenPending,
    /// Order's modification values are pending validation.
    ModifyValidationPending,
    /// Order's modification values are pending registration at the exchange.
    ModifyPending,
    /// Order placed but the fill is pending on a trigger price.
    TriggerPending,
    /// Order's cancellation request is pending registration at the exchange.
    CancelPending,
    /// Same as the received status, but for After Market Orders.
    AmoReqReceived,
}

/// The label of each order status, as the API reports it.
pub open spec fn spec_order_status_label(s: OrderStatus) -> Seq<char> {
    match s {
        OrderStatus::Open => "OPEN"@,
        OrderStatus::Complete => "COMPLETE"@,
        OrderStatus::Cancelled => "CANCELLED"@,
        OrderStatus::Rejected => "REJECTED"@,
        OrderStatus::PutOrderReqReceived => "PUT ORDER REQ RECEIVED"@,
        OrderStatus::ValidationPending => "VALIDATION PENDING"@,
        OrderStatus::OpenPending => "OPEN PENDING"@,
        OrderStatus::ModifyValidationPending => "MODIFY VALIDATION PENDING"@,
        OrderStatus::ModifyPending => "MODIFY PENDING"@,
        OrderStatus::TriggerPending => "TRIGGER PENDING"@,
        OrderStatus::CancelPending => "CANCEL PENDING"@,
        OrderStatus::AmoReqReceived => "AMO REQ RECEIVED"@,
    }
}

impl OrderStatus {
    /// The label of this status.
    pub fn label(&self) -> (t: &'static str)
        ensures
            t@ == spec_order_status_label(*self),
    {
        match self {
            OrderStatus::Open => "OPEN",
            OrderStatus::Complete => "COMPLETE",
            OrderStatus::Cancelled => "CANCELLED",
            OrderStatus::Rejected => "REJECTED",
            OrderStatus::PutOrderReqReceived => "PUT ORDER REQ RECEIVED",
            OrderStatus::ValidationPending => "VALIDATION PENDING",
            OrderStatus::OpenPending => "OPEN PENDING",
            OrderStatus::ModifyValidationPending => "MODIFY VALIDATION PENDING",
            OrderStatus::ModifyPending => "MODIFY PENDING",
            OrderStatus::TriggerPending => "TRIGGER PENDING",
            OrderStatus::CancelPending => "CANCEL PENDING",
            OrderStatus::AmoReqReceived => "AMO REQ RECEIVED",
        }
    }
}

/// The type of an order.
#[derive(Debug, Clone, Copy, PartialEq, Eq, Structural)]
pub enum OrderType {
    /// Market order.
    Market,
    /// Limit order.
    Limit,
    /// Stoploss order.
    Stoploss,
    /// Stoploss-market order.
    StoplossMarket,
}

/// The label of each order type.
pub open spec fn spec_order_type_label(t: OrderType) -> Seq<char> {
    match t {
        OrderType::Market => "MARKET"@,
        OrderType::Limit => "LIMIT"@,
        OrderType::Stoploss => "SL"@,
        OrderType::StoplossMarket => "SL-M"@,
    }
}

impl OrderType {
    /// The label of this order type.
    pub fn label(&self) -> (t: &'static str)
        ensures
            t@ == spec_order_type_label(*self),
    {
        match self {
            OrderType::Market => "MARKET",
            OrderType::Limit => "LIMIT",
            OrderType::Stoploss => "SL",
            OrderType::StoplossMarket => "SL-M",
        }
    }
}

/// The margin product type of an order.
#[derive(Debug, Clone, Copy, PartialEq, Eq, Structural)]
pub enum ProductType {
    /// Cash & Carry for equity.
    CashAndCarry,
    /// Normal for futures and options.
    Normal,
    /// Margin Intraday Squareoff for futures and options.
    MarginIntradaySquareoff,
}

/// The label of each product type.
pub open spec fn spec_product_type_label(p: ProductType) -> Seq<char> {
    match p {
        ProductType::CashAndCarry => "CNC"@,
        ProductType::Normal => "NRML"@,
        ProductType::MarginIntradaySquareoff => "MIS"@,
    }
}

impl ProductType {
    /// The label of this product type.
    pub fn label(&self) -> (t: &'static str)
        ensures
            t@ == spec_product_type_label(*self),
    {
        match self {
            ProductType::CashAndCarry => "CNC",
            ProductType::Normal => "NRML",
            ProductType::MarginIntradaySquareoff => "MIS",
        }
    }
}

/// The validity of an order.
#[derive(Debug, Clone, Copy, PartialEq, Eq, Structural)]
pub enum OrderValidity {
    /// Valid for the day.
    Day,
    /// Immediate or Cancel.
    ImmediateOrCancel,
    /// Order validity in minutes.
    TimeToLive,
}

/// The label of each order validity.
pub open spec fn spec_order_validity_label(v: OrderValidity) -> Seq<char> {
    match v {
        OrderValidity::Day => "DAY"@,
        OrderValidity::ImmediateOrCancel => "IOC"@,
        OrderValidity::TimeToLive => "TTL"@,
    }
}

impl OrderValidity {
    /// The label of this validity.
    pub fn label(&self) -> (t: &'static str)
        ensures
            t@ == spec_order_validity_label(*self),
    {
        match self {
            OrderValidity::Day => "DAY",
            OrderValidity::ImmediateOrCancel => "IOC",
            OrderValidity::TimeToLive => "TTL",
        }
    }
}

/// The direction of a transaction.
#[derive(Debug, Clone, Copy, PartialEq, Eq, Structural)]
pub enum TransactionType {
    /// Buy.
    BUY,
    /// Sell.
    SELL,
}

/// The label of each transaction direction.
pub open spec fn spec_transaction_type_label(t: TransactionType) -> Seq<char> {
    match t {
        TransactionType::BUY => "BUY"@,
        TransactionType::SELL => "SELL"@,
    }
}

impl TransactionType {
    /// The label of this transaction direction.
    pub fn label(&self) -> (t: &'static str)
        ensures
            t@ == spec_transaction_type_label(*self),
    {
        match self {
            TransactionType::BUY => "BUY",
            TransactionType::SELL => "SELL",
        }
    }
}

} // verus!
