//! Tests for the REST data models and the API error classification.

use manja::error::KiteApiException;
use manja::models::exchange::Exchange;
use manja::models::market::InstrumentType;
use manja::models::market::QuoteMode;
use manja::models::order::OrderReceipt;
use manja::models::order_enums::OrderStatus;
use manja::models::order_enums::OrderType;
use manja::models::order_enums::OrderValidity;
use manja::models::order_enums::OrderVariety;
use manja::models::order_enums::ProductType;
use manja::models::order_enums::TransactionType;
use manja::models::portfolio::PositionConversionRequest;
use manja::models::portfolio::PositionType;
use manja::models::user::Meta;
use manja::models::user::SegmentKind;
use manja::models::user::UserProfile;
use manja::models::KiteApiResponse;

#[test]
fn test_exchange_labels() {
    assert_eq!(Exchange::NSE.label(), "NSE");
    assert_eq!(Exchange::NFO.label(), "NFO");
    assert_eq!(Exchange::CDS.label(), "CDS");
    assert_eq!(Exchange::BSE.label(), "BSE");
    assert_eq!(Exchange::BFO.label(), "BFO");
    assert_eq!(Exchange::BCD.label(), "BCD");
    assert_eq!(Exchange::MCX.label(), "MCX");
    assert_eq!(Exchange::MCXSX.label(), "MCXSX");
    assert_eq!(Exchange::INDICES.label(), "INDICES");
    assert_eq!(Exchange::NONE.label(), "");
    assert_eq!(Exchange::default(), Exchange::NONE);
}

#[test]
fn test_exchange_label_round_trip() {
    let all = [
        Exchange::NONE,
        Exchange::NSE,
        Exchange::NFO,
        Exchange::CDS,
        Exchange::BSE,
        Exchange::BFO,
        Exchange::BCD,
        Exchange::MCX,
        Exchange::MCXSX,
        Exchange::INDICES,
    ];
    for e in all {
        assert_eq!(Exchange::from_label(e.label()), e);
    }
    assert_eq!(Exchange::from_label("nse"), Exchange::NONE);
    assert_eq!(Exchange::from_label("XNSE"), Exchange::NONE);
}

#[test]
fn test_exchange_from_index() {
    assert_eq!(Exchange::from_index(0), Exchange::NONE);
    assert_eq!(Exchange::from_index(1), Exchange::NSE);
    assert_eq!(Exchange::from_index(2), Exchange::NFO);
    assert_eq!(Exchange::from_index(3), Exchange::CDS);
    assert_eq!(Exchange::from_index(4), Exchange::BSE);
    assert_eq!(Exchange::from_index(5), Exchange::BFO);
    assert_eq!(Exchange::from_index(6), Exchange::BCD);
    assert_eq!(Exchange::from_index(7), Exchange::MCX);
    assert_eq!(Exchange::from_index(8), Exchange::MCXSX);
    assert_eq!(Exchange::from_index(9), Exchange::INDICES);
    assert_eq!(Exchange::from_index(10), Exchange::NONE);
}

#[test]
fn test_exchange_tradability() {
    assert!(!Exchange::NONE.is_tradable());
    assert!(!Exchange::INDICES.is_tradable());
    assert!(Exchange::NSE.is_tradable());
    assert!(Exchange::MCX.is_tradable());
}

#[test]
fn test_order_enum_labels() {
    assert_eq!(OrderVariety::Regular.label(), "regular");
    assert_eq!(OrderVariety::AfterMarket.label(), "amo");
    assert_eq!(OrderVariety::Cover.label(), "co");
    assert_eq!(OrderVariety::Iceberg.label(), "iceberg");
    assert_eq!(OrderVariety::Auction.label(), "auction");

    assert_eq!(OrderStatus::Open.label(), "OPEN");
    assert_eq!(OrderStatus::Complete.label(), "COMPLETE");
    assert_eq!(OrderStatus::Cancelled.label(), "CANCELLED");
    assert_eq!(OrderStatus::Rejected.label(), "REJECTED");
    assert_eq!(OrderStatus::PutOrderReqReceived.label(), "PUT ORDER REQ RECEIVED");
    assert_eq!(OrderStatus::ValidationPending.label(), "VALIDATION PENDING");
    assert_eq!(OrderStatus::OpenPending.label(), "OPEN PENDING");
    assert_eq!(
        OrderStatus::ModifyValidationPending.label(),
        "MODIFY VALIDATION PENDING"
    );
    assert_eq!(OrderStatus::ModifyPending.label(), "MODIFY PENDING");
    assert_eq!(OrderStatus::TriggerPending.label(), "TRIGGER PENDING");
    assert_eq!(OrderStatus::CancelPending.label(), "CANCEL PENDING");
    assert_eq!(OrderStatus::AmoReqReceived.label(), "AMO REQ RECEIVED");

    assert_eq!(OrderType::Market.label(), "MARKET");
    assert_eq!(OrderType::Limit.label(), "LIMIT");
    assert_eq!(OrderType::Stoploss.label(), "SL");
    assert_eq!(OrderType::StoplossMarket.label(), "SL-M");

    assert_eq!(ProductType::CashAndCarry.label(), "CNC");
    assert_eq!(ProductType::Normal.label(), "NRML");
    assert_eq!(ProductType::MarginIntradaySquareoff.label(), "MIS");

    assert_eq!(OrderValidity::Day.label(), "DAY");
    assert_eq!(OrderValidity::ImmediateOrCancel.label(), "IOC");
    assert_eq!(OrderValidity::TimeToLive.label(), "TTL");

    assert_eq!(TransactionType::BUY.label(), "BUY");
    assert_eq!(TransactionType::SELL.label(), "SELL");
}

#[test]
fn test_instrument_type_labels() {
    assert_eq!(InstrumentType::Equity.label(), "EQ");
    assert_eq!(InstrumentType::Futures.label(), "FUT");
    assert_eq!(InstrumentType::CallOption.label(), "CE");
    assert_eq!(InstrumentType::PutOption.label(), "PE");
}

#[test]
fn test_segment_kind_labels() {
    assert_eq!(SegmentKind::Commodity.label(), "commodity");
    assert_eq!(SegmentKind::Equity.label(), "equity");
}

#[test]
fn test_quote_mode_values() {
    assert_eq!(QuoteMode::Full, QuoteMode::Full);
    assert!(QuoteMode::OHLC != QuoteMode::LTP);
}

#[test]
fn test_exception_from_known_labels() {
    assert_eq!(
        KiteApiException::from_label("TokenException"),
        KiteApiException::TokenException
    );
    assert_eq!(
        KiteApiException::from_label("UserException"),
        KiteApiException::UserException
    );
    assert_eq!(
        KiteApiException::from_label("OrderException"),
        KiteApiException::OrderException
    );
    assert_eq!(
        KiteApiException::from_label("InputException"),
        KiteApiException::InputException
    );
    assert_eq!(
        KiteApiException::from_label("MarginException"),
        KiteApiException::MarginException
    );
    assert_eq!(
        KiteApiException::from_label("HoldingException"),
        KiteApiException::HoldingException
    );
    assert_eq!(
        KiteApiException::from_label("NetworkException"),
        KiteApiException::NetworkException
    );
    assert_eq!(
        KiteApiException::from_label("DataException"),
        KiteApiException::DataException
    );
    assert_eq!(
        KiteApiException::from_label("GeneralException"),
        KiteApiException::GeneralException
    );
}

#[test]
fn test_exception_from_unknown_label() {
    let e = KiteApiException::from_label("BrandNewException");
    assert_eq!(
        e,
        KiteApiException::DeserializationException(String::from("BrandNewException"))
    );
    assert!(KiteApiException::from_label("tokenexception") != KiteApiException::TokenException);
}

#[test]
fn test_exception_messages() {
    assert_eq!(
        KiteApiException::TokenException.message(),
        "TokenException: indicates the expiry or invalidation of an authenticated session"
    );
    assert_eq!(
        KiteApiException::MarginException.message(),
        "MarginException: represents insufficient funds required for order placement"
    );
    assert_eq!(
        KiteApiException::GeneralException.message(),
        "GeneralException: represents an unclassified error"
    );
    let unknown = KiteApiException::DeserializationException(String::from("WeirdException"));
    assert_eq!(
        unknown.message(),
        "DeserializationException: represents a JSON deserialization error of a response from a KiteConnect API endpoint (`WeirdException`)."
    );
}

#[test]
fn test_api_response_into_data() {
    let response: KiteApiResponse<OrderReceipt> = KiteApiResponse {
        status: String::from("success"),
        data: Some(OrderReceipt::new(String::from("151220000000000"))),
        message: None,
        error_type: None,
    };
    let receipt = response.into_data().unwrap();
    assert_eq!(receipt.order_id, "151220000000000");

    let failure: KiteApiResponse<OrderReceipt> = KiteApiResponse {
        status: String::from("error"),
        data: None,
        message: Some(String::from("Insufficient funds")),
        error_type: Some(String::from("MarginException")),
    };
    assert!(failure.into_data().is_none());
}

#[test]
fn test_position_conversion_request_fields() {
    let request = PositionConversionRequest {
        tradingsymbol: String::from("INFY"),
        exchange: Exchange::NSE,
        transaction_type: TransactionType::BUY,
        position_type: PositionType::Day,
        quantity: 50,
        old_product: ProductType::MarginIntradaySquareoff,
        new_product: ProductType::CashAndCarry,
    };
    assert_eq!(request.exchange.label(), "NSE");
    assert_eq!(request.position_type.label(), "day");
    assert_eq!(PositionType::Overnight.label(), "overnight");
    assert_eq!(request.quantity, 50);
}

#[test]
fn test_user_profile_fields() {
    let profile = UserProfile {
        user_id: String::from("XY12345"),
        user_type: String::from("individual"),
        email: String::from("user@host.example"),
        user_name: String::from("A User"),
        user_shortname: String::from("auser"),
        broker: String::from("ZERODHA"),
        exchanges: vec![String::from("NSE"), String::from("BSE")],
        products: vec![String::from("CNC")],
        order_types: vec![String::from("MARKET"), String::from("LIMIT")],
        avatar_url: None,
        meta: Meta {
            demat_consent: String::from("consent"),
        },
    };
    assert_eq!(profile.user_id, "XY12345");
    assert_eq!(profile.exchanges.len(), 2);
    assert_eq!(profile.meta.demat_consent, "consent");
}
