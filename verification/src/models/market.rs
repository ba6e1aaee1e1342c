//! Instrument and quote related types.

use vstd::prelude::*;

verus! {

/// The type of an instrument, such as equity, futures or an option.
#[derive(Debug, Clone, Copy, PartialEq, Eq, Structural)]
pub enum InstrumentType {
    /// Equity.
    Equity,
    /// Futures.
    Futures,
    /// Call Option.
    CallOption,
    /// Put Option.
    PutOption,
}

/// The label of each instrument type, as the instrument list reports it.
pub open spec fn spec_instrument_type_label(t: InstrumentType) -> Seq<char> {
    match t {
        InstrumentType::Equity => "EQ"@,
        InstrumentType::Futures => "FUT"@,
        InstrumentType::CallOption => "CE"@,
        InstrumentType::PutOption => "PE"@,
    }
}

impl InstrumentType {
    /// The label of this instrument type.
    pub fn label(&self) -> (t: &'static str)
        ensures
            t@ == spec_instrument_type_label(*self),
    {
        match self {
            InstrumentType::Equity => "EQ",
            InstrumentType::Futures => "FUT",
            InstrumentType::CallOption => "CE",
            InstrumentType::PutOption => "PE",
        }
    }
}

/// The detail tiers of a market quote returned over the REST API.
#[derive(Debug, Clone, Copy, PartialEq, Eq, Structural)]
pub enum QuoteMode {
    /// Full quote with market depth.
    Full,
    /// Quote with open, high, low and close data.
    OHLC,
    /// Last traded price only.
    LTP,
}

} // verus!
