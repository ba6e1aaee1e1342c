//! Streaming mode for WebSocket market-data subscriptions.
//!
//! A subscription requests one of three data-detail tiers per instrument
//! token. Each tier has a fixed lowercase wire tag used in outbound control
//! messages, and a fixed binary-frame byte length used to classify inbound
//! market-data packets.

use vstd::prelude::*;

use crate::digits::spec_dec_digits;
use crate::digits::dec_u64;

verus! {

/// Data-detail tier of a market-data subscription.
#[derive(Debug, Clone, Copy, PartialEq, Eq, Hash, Structural)]
pub enum Mode {
    /// Full data packets are streamed.
    Full,
    /// Quote data packets are streamed. This is the default mode.
    Quote,
    /// Only the last traded price (LTP) data packets are streamed.
    LTP,
}

impl Default for Mode {
    fn default() -> (m: Mode)
        ensures
            m == Mode::Quote,
    {
        Mode::Quote
    }
}

/// Tests two strings for equality of their characters.
///
/// Relies on `str::eq` of std: string slices compare equal exactly when their
/// characters do.
#[verifier::external_body]
pub(crate) fn str_eq(a: &str, b: &str) -> (r: bool)
    ensures
        r == (a@ == b@),
{
    a == b
}

/// The byte length of an inbound binary frame in each mode.
pub open spec fn spec_packet_len(m: Mode) -> nat {
    match m {
        Mode::LTP => 8,
        Mode::Quote => 44,
        Mode::Full => 184,
    }
}

/// The lowercase wire tag of each mode.
pub open spec fn spec_wire_tag(m: Mode) -> Seq<char> {
    match m {
        Mode::Full => "full"@,
        Mode::Quote => "quote"@,
        Mode::LTP => "ltp"@,
    }
}

/// The mode denoted by a wire tag, if any.
pub open spec fn spec_mode_of_tag(s: Seq<char>) -> Option<Mode> {
    if s == spec_wire_tag(Mode::Full) {
        Some(Mode::Full)
    } else if s == spec_wire_tag(Mode::Quote) {
        Some(Mode::Quote)
    } else if s == spec_wire_tag(Mode::LTP) {
        Some(Mode::LTP)
    } else {
        None
    }
}

/// The error message for an inbound frame whose byte length matches no mode.
pub open spec fn spec_invalid_packet_message(len: nat) -> Seq<char> {
    "Invalid packet size: "@ + spec_dec_digits(len)
}

impl Mode {
    /// The lowercase wire tag used for this mode in control messages.
    pub fn wire_tag(&self) -> (t: &'static str)
        ensures
            t@ == spec_wire_tag(*self),
    {
        match self {
            Mode::Full => "full",
            Mode::Quote => "quote",
            Mode::LTP => "ltp",
        }
    }

    /// Decodes a wire tag back to its mode; tags other than the three
    /// lowercase names decode to nothing.
    pub fn from_wire_tag(s: &str) -> (m: Option<Mode>)
        ensures
            m == spec_mode_of_tag(s@),
    {
        if str_eq(s, "full") {
            Some(Mode::Full)
        } else if str_eq(s, "quote") {
            Some(Mode::Quote)
        } else if str_eq(s, "ltp") {
            Some(Mode::LTP)
        } else {
            None
        }
    }

    /// Classifies an inbound binary frame by its byte length: 8 bytes carry an
    /// LTP packet, 44 a quote packet, 184 a full packet. Every other length is
    /// rejected with a message that quotes the offending length.
    pub fn try_from(value: usize) -> (r: Result<Mode, String>)
        ensures
            match r {
                Ok(m) => spec_packet_len(m) == value as nat,
                Err(e) => value as nat != 8 && value as nat != 44 && value as nat != 184
                    && e@ == spec_invalid_packet_message(value as nat),
            },
    {
        match value {
            8 => Ok(Mode::LTP),
            44 => Ok(Mode::Quote),
            184 => Ok(Mode::Full),
            _ => {
                let mut msg = String::new();
                msg.append("Invalid packet size: ");
                let digits = dec_u64(value as u64);
                msg.append(digits.as_str());
                assert(msg@ =~= spec_invalid_packet_message(value as nat));
                Err(msg)
            },
        }
    }
}

/// Wire-tag round trip: decoding the wire tag of any mode yields that mode
/// back.
pub proof fn lemma_wire_tag_round_trip(m: Mode)
    ensures
        spec_mode_of_tag(spec_wire_tag(m)) == Some(m),
{
    reveal_strlit("full");
    reveal_strlit("quote");
    reveal_strlit("ltp");
    assert("full"@.len() == 4);
    assert("quote"@.len() == 5);
    assert("ltp"@.len() == 3);
}

} // verus!
