//! Exchange options available for trading.

use vstd::prelude::*;

use crate::mode::str_eq;

verus! {

/// An exchange or market segment an instrument trades on.
#[derive(Debug, Clone, Copy, PartialEq, Eq, Structural)]
pub enum Exchange {
    /// No exchange.
    NONE,
    /// National Stock Exchange.
    NSE,
    /// National Futures and Options.
    NFO,
    /// Currency Derivatives Segment.
    CDS,
    /// Bombay Stock Exchange.
    BSE,
    /// Bombay Futures and Options.
    BFO,
    /// Bombay Currency Derivatives.
    BCD,
    /// Multi Commodity Exchange.
    MCX,
    /// Multi Commodity Exchange Stock Exchange.
    MCXSX,
    /// Stock Market Indices.
    INDICES,
}

impl Default for Exchange {
    fn default() -> (e: Exchange)
        ensures
            e == Exchange::NONE,
    {
        Exchange::NONE
    }
}

/// The symbol of each exchange; `NONE` has the empty symbol.
pub open spec fn spec_exchange_label(e: Exchange) -> Seq<char> {
    match e {
        Exchange::NSE => "NSE"@,
        Exchange::NFO => "NFO"@,
        Exchange::CDS => "CDS"@,
        Exchange::BSE => "BSE"@,
        Exchange::BFO => "BFO"@,
        Exchange::BCD => "BCD"@,
        Exchange::MCX => "MCX"@,
        Exchange::MCXSX => "MCXSX"@,
        Exchange::INDICES => "INDICES"@,
        Exchange::NONE => ""@,
    }
}

/// The exchange at each numeric index; indices outside the table denote no
/// exchange.
pub open spec fn spec_exchange_of_index(n: nat) -> Exchange {
    if n == 1 {
        Exchange::NSE
    } else if n == 2 {
        Exchange::NFO
    } else if n == 3 {
        Exchange::CDS
    } else if n == 4 {
        Exchange::BSE
    } else if n == 5 {
        Exchange::BFO
    } else if n == 6 {
        Exchange::BCD
    } else if n == 7 {
        Exchange::MCX
    } else if n == 8 {
        Exchange::MCXSX
    } else if n == 9 {
        Exchange::INDICES
    } else {
        Exchange::NONE
    }
}

/// The exchange denoted by a symbol; an unrecognized symbol denotes no
/// exchange.
pub open spec fn spec_exchange_of_label(s: Seq<char>) -> Exchange {
    if s == "NSE"@ {
        Exchange::NSE
    } else if s == "NFO"@ {
        Exchange::NFO
    } else if s == "CDS"@ {
        Exchange::CDS
    } else if s == "BSE"@ {
        Exchange::BSE
    } else if s == "BFO"@ {
        Exchange::BFO
    } else if s == "BCD"@ {
        Exchange::BCD
    } else if s == "MCX"@ {
        Exchange::MCX
    } else if s == "MCXSX"@ {
        Exchange::MCXSX
    } else if s == "INDICES"@ {
        Exchange::INDICES
    } else {
        Exchange::NONE
    }
}

impl Exchange {
    /// Whether instruments on this exchange can be traded: everything but the
    /// indices pseudo-exchange and the absent exchange.
    pub fn is_tradable(&self) -> (r: bool)
        ensures
            r == (*self != Exchange::NONE && *self != Exchange::INDICES),
    {
        match self {
            Exchange::NONE => false,
            Exchange::INDICES => false,
            _ => true,
        }
    }

    /// The symbol of this exchange.
    pub fn label(&self) -> (t: &'static str)
        ensures
            t@ == spec_exchange_label(*self),
    {
        match self {
            Exchange::NSE => "NSE",
            Exchange::NFO => "NFO",
            Exchange::CDS => "CDS",
            Exchange::BSE => "BSE",
            Exchange::BFO => "BFO",
            Exchange::BCD => "BCD",
            Exchange::MCX => "MCX",
            Exchange::MCXSX => "MCXSX",
            Exchange::INDICES => "INDICES",
            Exchange::NONE => "",
        }
    }

    /// The exchange at a numeric index, as used in packed market-data
    /// formats.
    pub fn from_index(value: usize) -> (e: Exchange)
        ensures
            e == spec_exchange_of_index(value as nat),
    {
        match value {
            9 => Exchange::INDICES,
            8 => Exchange::MCXSX,
            7 => Exchange::MCX,
            6 => Exchange::BCD,
            5 => Exchange::BFO,
            4 => Exchange::BSE,
            3 => Exchange::CDS,
            2 => Exchange::NFO,
            1 => Exchange::NSE,
            _ => Exchange::NONE,
        }
    }

    /// The exchange a symbol denotes.
    pub fn from_label(value: &str) -> (e: Exchange)
        ensures
            e == spec_exchange_of_label(value@),
    {
        if str_eq(value, "NSE") {
            Exchange::NSE
        } else if str_eq(value, "NFO") {
            Exchange::NFO
        } else if str_eq(value, "CDS") {
            Exchange::CDS
        } else if str_eq(value, "BSE") {
            Exchange::BSE
        } else if str_eq(value, "BFO") {
            Exchange::BFO
        } else if str_eq(value, "BCD") {
            Exchange::BCD
        } else if str_eq(value, "MCX") {
            Exchange::MCX
        } else if str_eq(value, "MCXSX") {
            Exchange::MCXSX
        } else if str_eq(value, "INDICES") {
            Exchange::INDICES
        } else {
            Exchange::NONE
        }
    }
}

/// Exchange symbols round-trip: decoding the symbol of any exchange yields
/// that exchange back.
pub proof fn lemma_exchange_label_round_trip(e: Exchange)
    ensures
        spec_exchange_of_label(spec_exchange_label(e)) == e,
{
    reveal_strlit("NSE");
    reveal_strlit("NFO");
    reveal_strlit("CDS");
    reveal_strlit("BSE");
    reveal_strlit("BFO");
    reveal_strlit("BCD");
    reveal_strlit("MCX");
    reveal_strlit("MCXSX");
    reveal_strlit("INDICES");
    reveal_strlit("");
    assert("NSE"@.len() == 3 && "NFO"@.len() == 3 && "CDS"@.len() == 3 && "BSE"@.len() == 3
        && "BFO"@.len() == 3 && "BCD"@.len() == 3 && "MCX"@.len() == 3 && "MCXSX"@.len() == 5
        && "INDICES"@.len() == 7 && ""@.len() == 0);
    assert("NSE"@[0] == 'N' && "NSE"@[1] == 'S' && "NSE"@[2] == 'E');
    assert("NFO"@[0] == 'N' && "NFO"@[1] == 'F' && "NFO"@[2] == 'O');
    assert("CDS"@[0] == 'C' && "CDS"@[1] == 'D' && "CDS"@[2] == 'S');
    assert("BSE"@[0] == 'B' && "BSE"@[1] == 'S' && "BSE"@[2] == 'E');
    assert("BFO"@[0] == 'B' && "BFO"@[1] == 'F' && "BFO"@[2] == 'O');
    assert("BCD"@[0] == 'B' && "BCD"@[1] == 'C' && "BCD"@[2] == 'D');
    assert("MCX"@[0] == 'M' && "MCX"@[1] == 'C' && "MCX"@[2] == 'X');
}

} // verus!
